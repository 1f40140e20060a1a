pub mod registry;
