use crate::text::str_equals;
use vstd::prelude::*;

verus! {

/// How a video source says its picture is to be turned.
#[derive(Debug, Default, Clone, Copy, PartialEq, Eq, Structural)]
pub enum Orientation {
    #[default]
    Auto,
    Rotate0,
    Rotate90,
    Rotate180,
    Rotate270,
    FlipRotate0,
    FlipRotate90,
    FlipRotate180,
    FlipRotate270,
}

/// The orientation an image-orientation tag value names.
pub open spec fn orientation_for_tag(value: Seq<char>) -> Option<Orientation> {
    if value == "rotate-0"@ {
        Some(Orientation::Rotate0)
    } else if value == "rotate-90"@ {
        Some(Orientation::Rotate90)
    } else if value == "rotate-180"@ {
        Some(Orientation::Rotate180)
    } else if value == "rotate-270"@ {
        Some(Orientation::Rotate270)
    } else if value == "flip-rotate-0"@ {
        Some(Orientation::FlipRotate0)
    } else if value == "flip-rotate-90"@ {
        Some(Orientation::FlipRotate90)
    } else if value == "flip-rotate-180"@ {
        Some(Orientation::FlipRotate180)
    } else if value == "flip-rotate-270"@ {
        Some(Orientation::FlipRotate270)
    } else {
        None
    }
}

/// The image-orientation tag value that names an orientation; the
/// automatic orientation has none.
pub open spec fn tag_value_of(o: Orientation) -> Option<Seq<char>> {
    match o {
        Orientation::Auto => None,
        Orientation::Rotate0 => Some("rotate-0"@),
        Orientation::Rotate90 => Some("rotate-90"@),
        Orientation::Rotate180 => Some("rotate-180"@),
        Orientation::Rotate270 => Some("rotate-270"@),
        Orientation::FlipRotate0 => Some("flip-rotate-0"@),
        Orientation::FlipRotate90 => Some("flip-rotate-90"@),
        Orientation::FlipRotate180 => Some("flip-rotate-180"@),
        Orientation::FlipRotate270 => Some("flip-rotate-270"@),
    }
}

/// A tag value gives exactly the orientation it names: each of the eight
/// named orientations is read from its own tag value, and a value that is
/// read as an orientation is that orientation's name.
pub proof fn lemma_tag_values_name_their_orientation(value: Seq<char>, o: Orientation)
    ensures
        orientation_for_tag(value) == Some(o) <==> tag_value_of(o) == Some(value),
{
    reveal_strlit("rotate-0");
    reveal_strlit("rotate-90");
    reveal_strlit("rotate-180");
    reveal_strlit("rotate-270");
    reveal_strlit("flip-rotate-0");
    reveal_strlit("flip-rotate-90");
    reveal_strlit("flip-rotate-180");
    reveal_strlit("flip-rotate-270");
    assert("rotate-180"@[7] != "rotate-270"@[7]);
    assert("flip-rotate-180"@[12] != "flip-rotate-270"@[12]);
    assert("rotate-0"@[0] != "flip-rotate-0"@[0]);
    assert("rotate-90"@[0] != "flip-rotate-90"@[0]);
    assert("rotate-180"@[0] != "flip-rotate-180"@[0]);
    assert("rotate-270"@[0] != "flip-rotate-270"@[0]);
    assert("rotate-0"@.len() == 8 && "rotate-90"@.len() == 9 && "rotate-180"@.len() == 10);
    assert("rotate-270"@.len() == 10 && "flip-rotate-0"@.len() == 13 && "flip-rotate-90"@.len() == 14);
    assert("flip-rotate-180"@.len() == 15 && "flip-rotate-270"@.len() == 15);
    match o {
        Orientation::Auto => {},
        _ => {
            if orientation_for_tag(value) == Some(o) {
                assert(tag_value_of(o) == Some(value));
            }
            if tag_value_of(o) == Some(value) {
                assert(orientation_for_tag(value) == Some(o));
            }
        },
    }
}

impl Orientation {
    /// The orientation named by an image-orientation tag value; `None` for
    /// an unknown value.
    pub fn from_tag_value(value: &str) -> (r: Option<Orientation>)
        ensures
            r == orientation_for_tag(value@),
    {
        if str_equals(value, "rotate-0") {
            Some(Orientation::Rotate0)
        } else if str_equals(value, "rotate-90") {
            Some(Orientation::Rotate90)
        } else if str_equals(value, "rotate-180") {
            Some(Orientation::Rotate180)
        } else if str_equals(value, "rotate-270") {
            Some(Orientation::Rotate270)
        } else if str_equals(value, "flip-rotate-0") {
            Some(Orientation::FlipRotate0)
        } else if str_equals(value, "flip-rotate-90") {
            Some(Orientation::FlipRotate90)
        } else if str_equals(value, "flip-rotate-180") {
            Some(Orientation::FlipRotate180)
        } else if str_equals(value, "flip-rotate-270") {
            Some(Orientation::FlipRotate270)
        } else {
            None
        }
    }

    /// Whether the picture's width and height swap: a quarter turn either way.
    pub fn is_flip_width_height(self) -> (r: bool)
        ensures
            r == (self is Rotate90 || self is Rotate270 || self is FlipRotate90 || self is FlipRotate270),
    {
        match self {
            Orientation::Rotate90 | Orientation::Rotate270 | Orientation::FlipRotate90
            | Orientation::FlipRotate270 => true,
            _ => false,
        }
    }
}

/// The orientations a video sink has been told about: one for the whole
/// stream from global tags, one for the current stream from stream tags.
pub struct OrientationState {
    pub global_orientation: Orientation,
    pub stream_orientation: Option<Orientation>,
}

impl OrientationState {
    /// Nothing told yet: upright, no stream override.
    pub fn new() -> (s: Self)
        ensures
            s.global_orientation == Orientation::Rotate0,
            s.stream_orientation is None,
    {
        OrientationState { global_orientation: Orientation::Rotate0, stream_orientation: None }
    }

    /// A new stream starts: upright, no stream override.
    pub fn on_stream_start(&mut self)
        ensures
            final(self).global_orientation == Orientation::Rotate0,
            final(self).stream_orientation is None,
    {
        self.global_orientation = Orientation::Rotate0;
        self.stream_orientation = None;
    }

    /// A tag arrived, carrying `orientation` if it had a known one: global
    /// tags set the global orientation (upright when none), stream tags set
    /// or clear the stream override.
    pub fn on_tag(&mut self, global_scope: bool, orientation: Option<Orientation>)
        ensures
            global_scope ==> final(self).global_orientation == (match orientation {
                Some(o) => o,
                None => Orientation::Rotate0,
            }) && final(self).stream_orientation == old(self).stream_orientation,
            !global_scope ==> final(self).stream_orientation == orientation
                && final(self).global_orientation == old(self).global_orientation,
    {
        if global_scope {
            self.global_orientation = match orientation {
                Some(o) => o,
                None => Orientation::Rotate0,
            };
        } else {
            self.stream_orientation = orientation;
        }
    }

    /// The orientation frames are shown with: the stream override, else the
    /// global one.
    pub fn effective(&self) -> (r: Orientation)
        ensures
            r == (match self.stream_orientation {
                Some(o) => o,
                None => self.global_orientation,
            }),
    {
        match self.stream_orientation {
            Some(o) => o,
            None => self.global_orientation,
        }
    }
}

} // verus!
