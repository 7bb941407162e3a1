pub mod state_manager;
