pub mod heartbeat;
