use hm_pi::file_io::FileIoError;
use hm_pi::logging::{log_file_paths, LogTarget, MAX_LOG_FILES, MAX_LOG_FILE_SIZE_BYTES};
use hm_pi::machine_config::{config_parse_error, MACHINE_CONFIG_PATH};
use hm_pi::modbus_http::{read_request, registers_template, write_request, write_success_html, ReadForm, WriteForm};

#[test]
fn log_targets_and_files() {
    assert_eq!(LogTarget::HTTP.to_str(), "http");
    assert_eq!(LogTarget::MODBUS.to_str(), "modbus");
    assert_eq!(LogTarget::FS.to_str(), "fs");
    assert_eq!(LogTarget::Clearcore.to_str(), "clearcore");
    let (current, archive) = log_file_paths("/home/op/hm-pi-data/logs");
    assert_eq!(current, "/home/op/hm-pi-data/logs/log-current.txt");
    assert_eq!(archive, "/home/op/hm-pi-data/logs/log-{}.txt");
    assert_eq!(MAX_LOG_FILE_SIZE_BYTES, 1024 * 1024);
    assert_eq!(MAX_LOG_FILES, 100);
}

#[test]
fn config_errors_are_classified() {
    assert_eq!(MACHINE_CONFIG_PATH, "machine_config.json");
    match config_parse_error(true, "/c/machine_config.json".to_string(), "missing field".to_string()) {
        FileIoError::Validation { message } => assert_eq!(
            message,
            "Configuration file version mismatch. Expected fields may not match. This may indicate the file was created with a different version of the software."
        ),
        other => panic!("unexpected {:?}", other),
    }
    match config_parse_error(false, "/c/m.json".to_string(), "EOF while parsing".to_string()) {
        FileIoError::Serde { path, source } => {
            assert_eq!(path, "/c/m.json");
            assert_eq!(source, "EOF while parsing");
        }
        other => panic!("unexpected {:?}", other),
    }
}

#[test]
fn register_page() {
    let r = read_request(ReadForm { address: 100, count: 3 });
    assert_eq!((r.address, r.count), (100, 3));
    let w = write_request(WriteForm { address: 7, value: 9 });
    assert_eq!((w.address, w.value), (7, 9));
    let t = registers_template(100, &vec![5, 6, 7]);
    assert_eq!(t.start_address, 100);
    assert_eq!(t.registers, vec![(100, 5), (101, 6), (102, 7)]);
    let t = registers_template(65534, &vec![1, 2]);
    assert_eq!(t.registers, vec![(65534, 1), (65535, 2)]);
    assert_eq!(
        write_success_html(WriteForm { address: 12, value: 3400 }),
        "<p class='write-response green'>✓ Successfully wrote 3400 to register 12</p>"
    );
}
