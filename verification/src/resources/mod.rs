pub mod loader;
