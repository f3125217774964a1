use std::io::Write;

use tfls_bootstrap::config::{InitConfig, SectionConfig};
use tfls_bootstrap::extract::WriteOp;
use tfls_bootstrap::flow::{step, Action, Event, FlowError, FlowState};

fn empty_config() -> InitConfig {
    InitConfig {
        version_terraform_ls: None,
        version_terraform: None,
        section_terraform_ls: None,
        section_lsp: None,
    }
}

fn empty_section() -> SectionConfig {
    SectionConfig { server_args: Vec::new(), server_path: None, options: None }
}

fn make_zip(entries: &[(&str, Option<&[u8]>)]) -> Vec<u8> {
    let mut w = zip::ZipWriter::new(std::io::Cursor::new(Vec::new()));
    let opts = zip::write::SimpleFileOptions::default();
    for (name, data) in entries {
        match data {
            Some(bytes) => {
                w.start_file(*name, opts).unwrap();
                w.write_all(bytes).unwrap();
            }
            None => {
                w.add_directory(*name, opts).unwrap();
            }
        }
    }
    w.finish().unwrap().into_inner()
}

#[test]
fn fresh_install_flow_downloads_extracts_and_launches() {
    let (st, act) = step(FlowState::Idle, Event::Init { raw: empty_config() });
    assert!(matches!(act, Action::ReadEnvironment));

    let (st, act) = step(st, Event::Env { os: "linux".to_string(), arch: "x86_64".to_string() });
    match &act {
        Action::CheckBinary { name } => assert_eq!(name, "terraform-ls"),
        _ => panic!("expected CheckBinary"),
    }

    let (st, act) = step(st, Event::Presence { present: false });
    match &act {
        Action::Fetch { url, stale_archive } => {
            assert_eq!(
                url,
                "https://releases.hashicorp.com/terraform-ls/0.32.7/terraform-ls_0.32.7_linux_amd64.zip"
            );
            assert_eq!(stale_archive, "terraform-ls_0.32.7_linux_amd64.zip");
        }
        _ => panic!("expected Fetch"),
    }

    let body = make_zip(&[
        ("terraform-ls", Some(b"#!binary".as_slice())),
        ("../../evil", Some(b"boom".as_slice())),
        ("docs/", None),
    ]);
    let (st, act) = step(st, Event::FetchOk { status: 200, body: body.clone() });
    match &act {
        Action::SaveArchive { name, body: staged } => {
            assert_eq!(name, "terraform-ls_0.32.7_linux_amd64.zip");
            assert_eq!(*staged, body);
        }
        _ => panic!("expected SaveArchive"),
    }

    let (st, act) = step(st, Event::ArchiveSaved);
    match &act {
        Action::Extract { ops } => {
            assert_eq!(ops.len(), 2);
            match &ops[0] {
                WriteOp::WriteFile { path, data } => {
                    assert_eq!(path, "terraform-ls");
                    assert_eq!(data.as_slice(), b"#!binary");
                }
                _ => panic!("expected WriteFile"),
            }
            match &ops[1] {
                WriteOp::MakeDir { path } => assert_eq!(path, "docs/"),
                _ => panic!("expected MakeDir"),
            }
        }
        _ => panic!("expected Extract"),
    }

    let (st, act) = step(st, Event::Extracted);
    match &act {
        Action::RemoveArchive { name } => assert_eq!(name, "terraform-ls_0.32.7_linux_amd64.zip"),
        _ => panic!("expected RemoveArchive"),
    }

    let (st, act) = step(st, Event::ArchiveRemoved { removed: true });
    match &act {
        Action::ResolveLaunchUri { binary, cleanup_warning } => {
            assert_eq!(binary, "terraform-ls");
            assert!(!cleanup_warning);
        }
        _ => panic!("expected ResolveLaunchUri"),
    }

    let (st, act) = step(
        st,
        Event::UriResolved { uri: "file:///plugins/terraform/terraform-ls".to_string() },
    );
    match &act {
        Action::StartServer { uri, args, selector, options } => {
            assert_eq!(uri, "file:///plugins/terraform/terraform-ls");
            assert_eq!(args, &vec!["serve".to_string()]);
            assert_eq!(selector.len(), 2);
            assert!(options.is_none());
        }
        _ => panic!("expected StartServer"),
    }
    assert!(matches!(st, FlowState::Done));
}

#[test]
fn present_binary_skips_fetch_and_yields_the_same_uri() {
    // Fresh-install run, up to the point where the host joins the binary name.
    let (st, _) = step(FlowState::Idle, Event::Init { raw: empty_config() });
    let (st, _) = step(st, Event::Env { os: "linux".to_string(), arch: "x86_64".to_string() });
    let (st, _) = step(st, Event::Presence { present: false });
    let body = make_zip(&[("terraform-ls", Some(b"bin".as_slice()))]);
    let (st, _) = step(st, Event::FetchOk { status: 200, body });
    let (st, _) = step(st, Event::ArchiveSaved);
    let (st, _) = step(st, Event::Extracted);
    let (_, fresh_act) = step(st, Event::ArchiveRemoved { removed: true });
    let fresh_binary = match fresh_act {
        Action::ResolveLaunchUri { binary, .. } => binary,
        _ => panic!("expected ResolveLaunchUri"),
    };

    // Re-run with the binary already present: no Fetch, no Extract.
    let (st, _) = step(FlowState::Idle, Event::Init { raw: empty_config() });
    let (st, _) = step(st, Event::Env { os: "linux".to_string(), arch: "x86_64".to_string() });
    let (st, act) = step(st, Event::Presence { present: true });
    let reused_binary = match act {
        Action::ResolveLaunchUri { binary, cleanup_warning } => {
            assert!(!cleanup_warning);
            binary
        }
        _ => panic!("expected ResolveLaunchUri"),
    };
    assert_eq!(fresh_binary, reused_binary);

    let (st, act) = step(st, Event::UriResolved { uri: "file:///w/terraform-ls".to_string() });
    match &act {
        Action::StartServer { uri, .. } => assert_eq!(uri, "file:///w/terraform-ls"),
        _ => panic!("expected StartServer"),
    }
    assert!(matches!(st, FlowState::Done));
}

#[test]
fn explicit_server_path_launches_at_once() {
    let mut raw = empty_config();
    let mut s = empty_section();
    s.server_path = Some("/opt/bin/terraform-ls".to_string());
    raw.section_terraform_ls = Some(s);
    raw.version_terraform_ls = Some("9.9.9".to_string());
    let (st, act) = step(FlowState::Idle, Event::Init { raw });
    match &act {
        Action::StartServer { uri, args, selector, options } => {
            assert_eq!(uri, "urn:/opt/bin/terraform-ls");
            assert_eq!(args, &vec!["serve".to_string()]);
            assert_eq!(selector.len(), 2);
            assert!(options.is_none());
        }
        _ => panic!("expected StartServer"),
    }
    assert!(matches!(st, FlowState::Done));
}

#[test]
fn passthrough_options_reach_the_launch_directive_untouched() {
    let mut raw = empty_config();
    let blob: serde_json::Value =
        serde_json::from_str("{\"rootModulePaths\":[\"/work\"]}").unwrap();
    let mut s = empty_section();
    s.options = Some(blob.clone());
    s.server_path = Some("/opt/bin/terraform-ls".to_string());
    raw.section_terraform_ls = Some(s);
    let (_, act) = step(FlowState::Idle, Event::Init { raw });
    match act {
        Action::StartServer { options, .. } => assert_eq!(options, Some(blob)),
        _ => panic!("expected StartServer"),
    }
}

#[test]
fn server_args_override_reaches_the_launch_directive() {
    let mut raw = empty_config();
    let mut s = empty_section();
    s.server_args = vec!["serve".to_string(), "-debug".to_string()];
    s.server_path = Some("srv".to_string());
    raw.section_terraform_ls = Some(s);
    let (_, act) = step(FlowState::Idle, Event::Init { raw });
    match act {
        Action::StartServer { uri, args, .. } => {
            assert_eq!(uri, "urn:srv");
            assert_eq!(args, vec!["serve".to_string(), "-debug".to_string()]);
        }
        _ => panic!("expected StartServer"),
    }
}

#[test]
fn windows_arm64_override_flow_uses_the_vendor_tokens() {
    let mut raw = empty_config();
    raw.version_terraform = Some("0.30.0".to_string());
    let (st, _) = step(FlowState::Idle, Event::Init { raw });
    let (st, act) = step(st, Event::Env { os: "windows".to_string(), arch: "aarch64".to_string() });
    match &act {
        Action::CheckBinary { name } => assert_eq!(name, "terraform-ls.exe"),
        _ => panic!("expected CheckBinary"),
    }
    let (_, act) = step(st, Event::Presence { present: false });
    match &act {
        Action::Fetch { url, stale_archive } => {
            assert_eq!(
                url,
                "https://releases.hashicorp.com/terraform-ls/0.30.0/terraform-ls_0.30.0_windows_arm64.zip"
            );
            assert_eq!(stale_archive, "terraform-ls_0.30.0_windows_arm64.zip");
        }
        _ => panic!("expected Fetch"),
    }
}

#[test]
fn unsupported_platform_is_fatal_before_any_network_action() {
    let (st, _) = step(FlowState::Idle, Event::Init { raw: empty_config() });
    let (st, act) = step(st, Event::Env { os: "linux".to_string(), arch: "riscv64".to_string() });
    assert!(matches!(act, Action::Report));
    match &st {
        FlowState::Failed { error } => match error {
            FlowError::UnsupportedPlatform { value, .. } => {
                assert_eq!(value, "riscv64");
                assert_eq!(error.message(), "Unsupported ARCH: riscv64");
            }
            _ => panic!("expected UnsupportedPlatform"),
        },
        _ => panic!("expected Failed"),
    }
}

#[test]
fn unsupported_os_reports_the_os_axis() {
    let (st, _) = step(FlowState::Idle, Event::Init { raw: empty_config() });
    let (st, act) = step(st, Event::Env { os: "plan9".to_string(), arch: "x86_64".to_string() });
    assert!(matches!(act, Action::Report));
    match &st {
        FlowState::Failed { error } => {
            assert_eq!(error.message(), "Unsupported OS: plan9");
        }
        _ => panic!("expected Failed"),
    }
}

#[test]
fn non_success_status_skips_extraction_but_still_launches() {
    let (st, _) = step(FlowState::Idle, Event::Init { raw: empty_config() });
    let (st, _) = step(st, Event::Env { os: "freebsd".to_string(), arch: "x86".to_string() });
    let (st, _) = step(st, Event::Presence { present: false });
    let (st, act) = step(st, Event::FetchOk { status: 404, body: Vec::new() });
    match &act {
        Action::RemoveArchive { name } => assert_eq!(name, "terraform-ls_0.32.7_freebsd_386.zip"),
        _ => panic!("expected RemoveArchive"),
    }
    let (st, act) = step(st, Event::ArchiveRemoved { removed: false });
    match &act {
        Action::ResolveLaunchUri { binary, cleanup_warning } => {
            assert_eq!(binary, "terraform-ls");
            assert!(cleanup_warning);
        }
        _ => panic!("expected ResolveLaunchUri"),
    }
    let (st, act) = step(st, Event::UriResolved { uri: "file:///w/terraform-ls".to_string() });
    assert!(matches!(act, Action::StartServer { .. }));
    assert!(matches!(st, FlowState::Done));
}

#[test]
fn transport_failure_is_fatal() {
    let (st, _) = step(FlowState::Idle, Event::Init { raw: empty_config() });
    let (st, _) = step(st, Event::Env { os: "linux".to_string(), arch: "x86_64".to_string() });
    let (st, _) = step(st, Event::Presence { present: false });
    let (st, act) = step(st, Event::FetchFailed);
    assert!(matches!(act, Action::Report));
    match &st {
        FlowState::Failed { error } => {
            assert!(matches!(error, FlowError::Fetch));
            assert_eq!(error.message(), "Failed to download the language server archive");
        }
        _ => panic!("expected Failed"),
    }
}

#[test]
fn unreadable_archive_is_fatal() {
    let (st, _) = step(FlowState::Idle, Event::Init { raw: empty_config() });
    let (st, _) = step(st, Event::Env { os: "linux".to_string(), arch: "x86_64".to_string() });
    let (st, _) = step(st, Event::Presence { present: false });
    let (st, _) = step(st, Event::FetchOk { status: 200, body: b"not a zip".to_vec() });
    let (st, act) = step(st, Event::ArchiveSaved);
    assert!(matches!(act, Action::Report));
    match &st {
        FlowState::Failed { error } => {
            assert!(matches!(error, FlowError::Extraction));
            assert_eq!(error.message(), "Failed to extract the language server archive");
        }
        _ => panic!("expected Failed"),
    }
}

#[test]
fn empty_archive_extracts_nothing() {
    let (st, _) = step(FlowState::Idle, Event::Init { raw: empty_config() });
    let (st, _) = step(st, Event::Env { os: "linux".to_string(), arch: "x86_64".to_string() });
    let (st, _) = step(st, Event::Presence { present: false });
    let body = make_zip(&[]);
    let (st, _) = step(st, Event::FetchOk { status: 200, body });
    let (_, act) = step(st, Event::ArchiveSaved);
    match &act {
        Action::Extract { ops } => assert!(ops.is_empty()),
        _ => panic!("expected Extract"),
    }
}

#[test]
fn failed_write_is_fatal() {
    let (st, _) = step(FlowState::Idle, Event::Init { raw: empty_config() });
    let (st, _) = step(st, Event::Env { os: "linux".to_string(), arch: "x86_64".to_string() });
    let (st, _) = step(st, Event::Presence { present: false });
    let body = make_zip(&[("terraform-ls", Some(b"bin".as_slice()))]);
    let (st, _) = step(st, Event::FetchOk { status: 200, body });
    let (st, _) = step(st, Event::ArchiveSaved);
    let (st, act) = step(st, Event::ExtractFailed);
    assert!(matches!(act, Action::Report));
    assert!(matches!(st, FlowState::Failed { error: FlowError::Extraction }));
}

#[test]
fn save_failure_is_fatal() {
    let (st, _) = step(FlowState::Idle, Event::Init { raw: empty_config() });
    let (st, _) = step(st, Event::Env { os: "linux".to_string(), arch: "x86_64".to_string() });
    let (st, _) = step(st, Event::Presence { present: false });
    let body = make_zip(&[("terraform-ls", Some(b"bin".as_slice()))]);
    let (st, _) = step(st, Event::FetchOk { status: 200, body });
    let (st, act) = step(st, Event::SaveFailed);
    assert!(matches!(act, Action::Report));
    assert!(matches!(st, FlowState::Failed { error: FlowError::Fetch }));
}

#[test]
fn uri_failure_is_fatal() {
    let (st, _) = step(FlowState::Idle, Event::Init { raw: empty_config() });
    let (st, _) = step(st, Event::Env { os: "linux".to_string(), arch: "x86_64".to_string() });
    let (st, act) = step(st, Event::Presence { present: true });
    assert!(matches!(act, Action::ResolveLaunchUri { .. }));
    let (st, act) = step(st, Event::UriFailed);
    assert!(matches!(act, Action::Report));
    match &st {
        FlowState::Failed { error } => {
            assert!(matches!(error, FlowError::Uri));
            assert_eq!(error.message(), "Failed to resolve the launch URI");
        }
        _ => panic!("expected Failed"),
    }
}

#[test]
fn an_event_out_of_order_is_rejected() {
    let (st, act) = step(FlowState::Idle, Event::Extracted);
    assert!(matches!(act, Action::Report));
    match &st {
        FlowState::Failed { error } => {
            assert!(matches!(error, FlowError::UnexpectedEvent));
            assert_eq!(error.message(), "Unexpected event for the current flow state");
        }
        _ => panic!("expected Failed"),
    }
}

#[test]
fn terminal_states_accept_nothing_further() {
    let (st, act) = step(FlowState::Done, Event::Presence { present: true });
    assert!(matches!(act, Action::Report));
    assert!(matches!(st, FlowState::Failed { error: FlowError::UnexpectedEvent }));
}
