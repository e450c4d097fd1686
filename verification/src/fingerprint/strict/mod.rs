pub mod disabled_apis;
