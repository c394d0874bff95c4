use std::time::Duration;

use netprintswitch::command_output::{
    command_output_error, command_output_text, is_missing_task_error, task_query_matches,
    task_removal_result,
};
use netprintswitch::model::{association_matches, Association, Network};
use netprintswitch::retry::{retry_delay, retry_delay_seconds};
use netprintswitch::text::{eq_ignore_ascii_case, normalize, to_ascii_lowercase};
use netprintswitch::wide::{copy_wide, wide};

fn network(name: &str, kind: &str) -> Network {
    Network { name: name.to_string(), network_type: kind.to_string() }
}

fn association(network: &str, kind: &str, printer: &str) -> Association {
    Association {
        network: network.to_string(),
        network_type: kind.to_string(),
        printer: printer.to_string(),
    }
}

#[test]
fn retry_delay_backs_off_and_is_bounded() {
    assert_eq!(retry_delay(1), Duration::from_secs(2));
    assert_eq!(retry_delay(2), Duration::from_secs(4));
    assert_eq!(retry_delay(9), Duration::from_secs(256));
    assert_eq!(retry_delay(u32::MAX), Duration::from_secs(256));
}

#[test]
fn retry_delay_doubles_up_to_the_cap() {
    let expected = [2u64, 2, 4, 8, 16, 32, 64, 128, 256, 256];
    for (attempt, secs) in expected.iter().enumerate() {
        assert_eq!(retry_delay_seconds(attempt as u32), *secs);
    }
}

#[test]
fn associations_match_network_case_insensitively() {
    let network = Network {
        name: "Office Wi-Fi".to_string(),
        network_type: "Wi-Fi".to_string(),
    };
    let association = Association {
        network: " office wi-fi ".to_string(),
        network_type: "wI-Fi".to_string(),
        printer: "Office Printer".to_string(),
    };
    assert!(association_matches(&association, &network));
}

#[test]
fn generic_association_matches_every_kind() {
    let a = association("Home", "NETWORK", "Laser");
    assert!(association_matches(&a, &network("home", "Ethernet")));
    assert!(association_matches(&a, &network(" HOME\t", "Wi-Fi")));
}

#[test]
fn association_of_other_kind_or_name_does_not_match() {
    let a = association("Home", "Ethernet", "Laser");
    assert!(!association_matches(&a, &network("Home", "Wi-Fi")));
    assert!(!association_matches(&a, &network("Home 2", "Ethernet")));
}

#[test]
fn normalize_trims_and_lowercases() {
    assert_eq!(normalize("  Café WIFI \n"), "café wifi");
    assert_eq!(normalize("\u{3000}ÄBC\u{2009}"), "äbc");
    assert_eq!(normalize("\u{85} X \u{a0}"), "x");
}

#[test]
fn network_key_joins_kind_and_normalized_name() {
    assert_eq!(network(" Office Wi-Fi ", "Wi-Fi").key(), "Wi-Fi::office wi-fi");
}

#[test]
fn ascii_case_folding_leaves_other_letters_alone() {
    assert!(eq_ignore_ascii_case("NetWork", "network"));
    assert!(!eq_ignore_ascii_case("Ä", "ä"));
    assert!(!eq_ignore_ascii_case("Wi-Fi", "Wi-Fi "));
    assert_eq!(to_ascii_lowercase("ÄB-c"), vec!['Ä', 'b', '-', 'c']);
}

#[test]
fn task_output_supports_utf16_and_utf8() {
    assert_eq!(
        command_output_text(b"<Arguments>--check-network</Arguments>"),
        "<Arguments>--check-network</Arguments>"
    );
    assert_eq!(command_output_text(&[0xff, 0xfe, b'A', 0, b'B', 0]), "AB");
}

#[test]
fn task_output_big_endian_and_odd_bytes() {
    assert_eq!(command_output_text(&[0xfe, 0xff, 0, b'A', 0, b'B', 7]), "AB");
    assert_eq!(command_output_text(&[0xff, 0xfe, 0x3d, 0xd8, 0x00, 0xde]), "\u{1F600}");
    assert_eq!(command_output_text(&[0xff, 0xfe, 0x3d, 0xd8, b'A', 0]), "\u{FFFD}A");
    assert_eq!(command_output_text(&[b'a', 0xff, b'b']), "a\u{FFFD}b");
    assert_eq!(command_output_text(&[]), "");
}

fn little_endian_output(units: &[u16]) -> Vec<u8> {
    let mut bytes = vec![0xff, 0xfe];
    for unit in units {
        bytes.extend_from_slice(&unit.to_le_bytes());
    }
    bytes
}

#[test]
fn utf16_decoding_replaces_unpaired_surrogates() {
    assert_eq!(command_output_text(&little_endian_output(&[0xdc00, 0x41, 0xd800])), "\u{FFFD}A\u{FFFD}");
}

#[test]
fn wide_text_is_nul_terminated_utf16_and_reads_back() {
    assert_eq!(wide("Ab"), vec![0x41, 0x62, 0]);
    assert_eq!(wide("\u{1F600}"), vec![0xd83d, 0xde00, 0]);
    let text = "Drucker – Büro \u{1F5A8}";
    let units = wide(text);
    assert_eq!(command_output_text(&little_endian_output(&units[..units.len() - 1])), text);
}

#[test]
fn copy_wide_truncates_and_terminates() {
    let mut buffer = [7u16; 4];
    copy_wide(&mut buffer, &wide("NetPrintSwitch"));
    assert_eq!(buffer, [b'N' as u16, b'e' as u16, b't' as u16, 0]);
    let mut buffer = [7u16; 6];
    copy_wide(&mut buffer, &wide("ab"));
    assert_eq!(buffer, [b'a' as u16, b'b' as u16, 0, 7, 7, 7]);
    let mut buffer = [7u16; 3];
    copy_wide(&mut buffer, &[]);
    assert_eq!(buffer, [0, 7, 7]);
}

#[test]
fn missing_task_messages_are_recognised() {
    assert!(is_missing_task_error("ERROR: The system CANNOT FIND the file specified."));
    assert!(is_missing_task_error("The task does not exist"));
    assert!(is_missing_task_error("Task Not Found"));
    assert!(!is_missing_task_error("Access is denied."));
    assert!(!is_missing_task_error(""));
}

#[test]
fn task_definition_must_name_executable_and_argument() {
    let xml = "<Exec><Command>\"C:\\Apps\\NetPrintSwitch.exe\"</Command><Arguments>--check-network</Arguments></Exec>";
    assert!(task_query_matches(xml.as_bytes(), "c:/apps/netprintswitch.exe"));
    assert!(!task_query_matches(xml.as_bytes(), "C:\\Other\\NetPrintSwitch.exe"));
    let without = "<Exec><Command>C:\\Apps\\NetPrintSwitch.exe</Command></Exec>";
    assert!(!task_query_matches(without.as_bytes(), "C:\\Apps\\NetPrintSwitch.exe"));
    let mut utf16 = vec![0xff, 0xfe];
    for unit in xml.encode_utf16() {
        utf16.extend_from_slice(&unit.to_le_bytes());
    }
    assert!(task_query_matches(&utf16, "C:\\APPS\\NETPRINTSWITCH.EXE"));
}

#[test]
fn command_errors_prefer_error_output() {
    assert_eq!(
        command_output_error("printer enumeration", "exit code: 1", b"  boom \n", b"ignored"),
        "printer enumeration failed with status exit code: 1: boom"
    );
    assert_eq!(
        command_output_error("network detection", "exit code: 2", b" \n", b" out "),
        "network detection failed with status exit code: 2: out"
    );
    assert_eq!(
        command_output_error("default printer change", "exit code: 3", b"", b""),
        "default printer change failed with status exit code: 3"
    );
}

#[test]
fn task_removal_treats_missing_task_as_removed() {
    assert_eq!(task_removal_result(true, "exit code: 0", b"", b""), Ok(()));
    assert_eq!(
        task_removal_result(false, "exit code: 1", b"ERROR: The system cannot find the file specified.", b""),
        Ok(())
    );
    assert_eq!(
        task_removal_result(false, "exit code: 1", b"Access is denied.", b""),
        Err("Task Scheduler returned status exit code: 1: Access is denied.".to_string())
    );
    assert_eq!(
        task_removal_result(false, "exit code: 5", b"", b""),
        Err("Task Scheduler returned status exit code: 5".to_string())
    );
}

#[test]
fn output_text_reads_back_in_each_encoding() {
    let text = "Büro – Drucker \u{1F5A8}";
    assert_eq!(command_output_text(text.as_bytes()), text);
    let mut le = vec![0xff, 0xfe];
    let mut be = vec![0xfe, 0xff];
    for unit in text.encode_utf16() {
        le.extend_from_slice(&unit.to_le_bytes());
        be.extend_from_slice(&unit.to_be_bytes());
    }
    assert_eq!(command_output_text(&le), text);
    assert_eq!(command_output_text(&be), text);
}

#[test]
fn retry_delay_steps_at_most_double() {
    for attempt in 1u32..20 {
        let now = retry_delay_seconds(attempt);
        let next = retry_delay_seconds(attempt + 1);
        assert!(now <= next && next <= 2 * now && now <= 256);
        if attempt < 8 {
            assert_eq!(next, 2 * now);
        }
    }
}

#[test]
fn names_differing_in_ascii_case_and_padding_normalise_alike() {
    assert_eq!(normalize("\t Office Wi-Fi \u{2003}"), normalize("Office Wi-Fi"));
    assert_eq!(normalize("OFFICE wi-fi"), normalize("office WI-FI"));
    assert_eq!(normalize("  Office WI-FI\n"), "office wi-fi");
}
