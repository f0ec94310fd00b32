pub mod mobile_sync;
