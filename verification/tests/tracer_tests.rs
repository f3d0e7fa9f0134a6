use web_service::tracer::{
    is_log_file_of, log_file_name, log_filename, logging_error_message, MAX_LOG_ARCHIVES, TEST_LOG_DIRECTORY,
};

#[test]
fn log_names() {
    assert_eq!(log_filename("server", 1234), "server_PID1234");
    assert_eq!(log_filename("client", 0), "client_PID0");
    assert_eq!(log_filename("x", u32::MAX), "x_PID4294967295");
    assert_eq!(log_file_name("server_PID1234"), "server_PID1234.log");
    assert_eq!(logging_error_message("denied"), "Error initializing logging: denied");
    assert_eq!(MAX_LOG_ARCHIVES, 3);
    assert_eq!(TEST_LOG_DIRECTORY, "/var/tmp");
}

#[test]
fn own_log_files() {
    let log = "server_PID1";
    assert!(is_log_file_of("server_PID1.log", log));
    assert!(is_log_file_of("server_PID1.2024-01-01-10.log", log));
    assert!(!is_log_file_of("server_PID12.2024-01-01-10.log", log));
    assert!(!is_log_file_of("server_PID1.2024-01-01-10.lo", log));
    assert!(!is_log_file_of("client_PID1.2024-01-01-10.log", log));
    assert!(!is_log_file_of("server_PID1log", log));
    assert!(is_log_file_of("server_PID1.log.1", log));
    assert!(is_log_file_of("server_PID1.logX", log));
    assert!(is_log_file_of("server_PID1.log.2024-01-01-10", log));
    assert!(!is_log_file_of("server_PID1.txt", log));
    assert!(!is_log_file_of("server_PID1", log));
}

#[test]
fn log_names_differ_by_process() {
    assert_ne!(log_filename("server", 1), log_filename("server", 11));
    assert_ne!(log_filename("server", 10), log_filename("server", 1));
    assert_eq!(log_filename("server", 7), log_filename("server", 7));
}
