use bargozin::system_dns::command_backed::{
    networksetup_get_args, networksetup_set_args, parse_networksetup_output,
};
use bargozin::system_dns::error::{classify_io_failure, SystemDNSError};
use bargozin::system_dns::file_backed::{parse_resolv_conf, render_resolv_conf};
use bargozin::system_dns::memory::SystemDNSMemory;
use bargozin::system_dns::unsupported::SystemDNSUnsupported;
use bargozin::system_dns::{add_all, entry_exists, get, is_supported};

fn servers(list: &[&str]) -> Vec<String> {
    list.iter().map(|s| s.to_string()).collect()
}

#[test]
fn set_then_get_returns_exactly_the_list() {
    let mut sys = SystemDNSMemory::new();
    bargozin::system_dns::set(&mut sys, servers(&["1.1.1.1", "8.8.8.8"])).unwrap();
    let got = get(&sys).unwrap();
    assert_eq!(got, servers(&["1.1.1.1", "8.8.8.8"]));
}

#[test]
fn add_appends_one_entry() {
    let mut sys = SystemDNSMemory::new();
    bargozin::system_dns::set(&mut sys, servers(&["9.9.9.9"])).unwrap();
    bargozin::system_dns::add(&mut sys, "1.0.0.1".to_string()).unwrap();
    assert_eq!(get(&sys).unwrap(), servers(&["9.9.9.9", "1.0.0.1"]));
}

#[test]
fn add_all_applies_in_order() {
    let mut sys = SystemDNSMemory::new();
    add_all(&mut sys, servers(&["A", "B", "C"])).unwrap();
    assert_eq!(get(&sys).unwrap(), servers(&["A", "B", "C"]));
}

#[test]
fn add_all_stops_at_first_failure() {
    // One successful write: the add of "A" spends it, so the write behind
    // the add of "B" is the first to fail, and "C" is never attempted.
    let mut sys = SystemDNSMemory {
        entries: Vec::new(),
        sets_remaining: Some(1),
    };
    let err = add_all(&mut sys, servers(&["A", "B", "C"])).unwrap_err();
    assert!(matches!(err, SystemDNSError::CommandError(_)));
    let left = sys.entries.clone();
    assert!(left.contains(&"A".to_string()));
    assert!(!left.contains(&"B".to_string()));
    assert!(!left.contains(&"C".to_string()));
    assert_eq!(left, servers(&["A"]));
}

#[test]
fn exists_is_membership_over_get() {
    let mut sys = SystemDNSMemory::new();
    bargozin::system_dns::set(&mut sys, servers(&["1.1.1.1", "8.8.8.8"])).unwrap();
    assert!(entry_exists(&sys, "8.8.8.8".to_string()).unwrap());
    assert!(!entry_exists(&sys, "8.8.4.4".to_string()).unwrap());
    assert!(!entry_exists(&sys, "8.8.8".to_string()).unwrap());
}

#[test]
fn unsupported_platform_probe() {
    let sys = SystemDNSUnsupported;
    assert!(!is_supported(&sys));
    assert!(matches!(get(&sys), Err(SystemDNSError::NotSupported)));
    let mut sys = SystemDNSUnsupported;
    assert!(matches!(
        bargozin::system_dns::set(&mut sys, servers(&["1.1.1.1"])),
        Err(SystemDNSError::NotSupported)
    ));
}

#[test]
fn memory_platform_is_supported() {
    let sys = SystemDNSMemory::new();
    assert!(is_supported(&sys));
}

#[test]
fn render_writes_leading_blank_line_and_directives() {
    let text = render_resolv_conf(&servers(&["1.1.1.1", "8.8.8.8"]));
    assert_eq!(text, "\nnameserver 1.1.1.1\nnameserver 8.8.8.8\n");
}

#[test]
fn parse_after_render_round_trips() {
    let list = servers(&["1.1.1.1", "8.8.8.8"]);
    let text = render_resolv_conf(&list);
    assert_eq!(parse_resolv_conf(&text), list);
}

#[test]
fn parse_ignores_comments_and_blank_lines() {
    let content = "# generated by hand\nnameserver 1.1.1.1\n\nnameserver 8.8.8.8\n";
    assert_eq!(
        parse_resolv_conf(content),
        servers(&["1.1.1.1", "8.8.8.8"])
    );
}

#[test]
fn parse_ignores_other_directives_and_trims() {
    let content = "search example.com\n  nameserver 9.9.9.9  \noptions edns0\n";
    assert_eq!(parse_resolv_conf(content), servers(&["9.9.9.9"]));
}

#[test]
fn parse_empty_file_yields_no_entries() {
    assert_eq!(parse_resolv_conf(""), Vec::<String>::new());
}

#[test]
fn command_output_one_address_per_line() {
    let out = "1.1.1.1\n8.8.8.8\n";
    assert_eq!(
        parse_networksetup_output(out),
        servers(&["1.1.1.1", "8.8.8.8"])
    );
}

#[test]
fn command_output_filters_sentinel_line() {
    let out = "There aren't any DNS Servers set on\n";
    assert_eq!(parse_networksetup_output(out), Vec::<String>::new());
}

#[test]
fn command_output_handles_crlf_and_no_final_newline() {
    let out = "1.1.1.1\r\n8.8.8.8";
    assert_eq!(
        parse_networksetup_output(out),
        servers(&["1.1.1.1", "8.8.8.8"])
    );
}

#[test]
fn command_write_arguments() {
    let args = networksetup_set_args(&servers(&["1.1.1.1", "8.8.8.8"]));
    assert_eq!(
        args,
        servers(&["-setdnsservers", "Wi-Fi", "1.1.1.1", "8.8.8.8"])
    );
    assert_eq!(networksetup_get_args(), servers(&["-getdnsservers", "Wi-Fi"]));
}

#[test]
fn error_labels() {
    assert_eq!(SystemDNSError::NotSupported.message(), "Not Supported");
    assert_eq!(SystemDNSError::PermissionDenied.message(), "Permission Denied");
    assert_eq!(
        SystemDNSError::IOError("disk gone".to_string()).message(),
        "IO Error"
    );
    assert_eq!(
        SystemDNSError::CommandError("exit 1".to_string()).message(),
        "Command Error"
    );
}

#[test]
fn io_failures_classify_by_permission() {
    assert!(matches!(
        classify_io_failure(true, "denied".to_string()),
        SystemDNSError::PermissionDenied
    ));
    match classify_io_failure(false, "boom".to_string()) {
        SystemDNSError::IOError(detail) => assert_eq!(detail, "boom"),
        _ => panic!("a non-permission fault must stay an IOError"),
    }
}
