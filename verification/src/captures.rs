pub mod raw_socket_capture;
pub mod readiness;
pub mod wireless;
