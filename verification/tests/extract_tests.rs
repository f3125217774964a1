use tfls_bootstrap::extract::{extraction_plan, ZipEntry, WriteOp};

fn entry(name: &str, data: &[u8]) -> ZipEntry {
    ZipEntry { name: name.to_string(), data: data.to_vec() }
}

#[test]
fn plan_keeps_safe_entries_in_order_and_skips_traversals() {
    let entries = vec![
        entry("bin/", b""),
        entry("../../evil", b"boom"),
        entry("bin/terraform-ls", b"payload"),
        entry("/abs", b"no"),
    ];
    let plan = extraction_plan(&entries);
    assert_eq!(plan.len(), 2);
    match &plan[0] {
        WriteOp::MakeDir { path } => assert_eq!(path, "bin/"),
        _ => panic!("expected MakeDir"),
    }
    match &plan[1] {
        WriteOp::WriteFile { path, data } => {
            assert_eq!(path, "bin/terraform-ls");
            assert_eq!(data.as_slice(), b"payload");
        }
        _ => panic!("expected WriteFile"),
    }
}

#[test]
fn plan_of_no_entries_is_empty() {
    let plan = extraction_plan(&Vec::new());
    assert!(plan.is_empty());
}

#[test]
fn plan_of_only_unsafe_entries_is_empty() {
    let entries = vec![entry("..", b""), entry("a/../b", b"x"), entry("c:\\evil", b"y")];
    assert!(extraction_plan(&entries).is_empty());
}
