use wranglerjs::bundle::{create_metadata, create_prologue, create_wasm_prologue, Bundle, WrangerjsOutput};

const PROLOGUE: &str = "\n        const window = this;\n    ";

fn output(wasm: Option<&str>, script: &str) -> WrangerjsOutput {
    WrangerjsOutput {
        wasm: wasm.map(|w| w.to_string()),
        wasm_name: "x".to_string(),
        script: script.to_string(),
        dist_to_clean: "/tmp/d".to_string(),
        wasm_size: 0,
        script_size: 14,
    }
}

#[test]
fn paths_are_inside_the_worker_directory() {
    let bundle = Bundle::new();
    assert_eq!(bundle.out_dir(), "./worker");
    assert_eq!(bundle.metadata_path(), "./worker/metadata.json");
    assert_eq!(bundle.wasm_path(), "./worker/module.wasm");
    assert_eq!(bundle.script_path(), "./worker/script.js");
    assert_eq!(bundle.get_wasm_binding(), "wasmprogram");
}

#[test]
fn prologue_aliases_window() {
    assert_eq!(create_prologue(), PROLOGUE);
}

#[test]
fn wasm_prologue_patches_fetch_for_the_module_name() {
    let p = create_wasm_prologue("mod.wasm".to_string(), "wasmprogram".to_string());
    assert!(p.starts_with("\n            const oldFetch = fetch;\n"));
    assert!(p.contains("if (name === \"mod.wasm\") {"));
    assert!(p.contains("return wasmprogram; // defined in bindings"));
    assert!(p.contains("return oldFetch(name);"));
}

#[test]
fn metadata_without_wasm_has_no_binding() {
    let bundle = Bundle::new();
    assert_eq!(create_metadata(&bundle, false), "{\"body_part\":\"script\"}");
}

#[test]
fn metadata_with_wasm_binds_the_module() {
    let bundle = Bundle::new();
    assert_eq!(
        create_metadata(&bundle, true),
        "{\"body_part\":\"script\",\"binding\":{\"name\":\"wasmprogram\",\"type\":\"wasm_module\",\"part\":\"wasmprogram\"}}"
    );
}

#[test]
fn assemble_without_wasm_writes_metadata_and_script() {
    let bundle = Bundle::new();
    let files = bundle.assemble(&output(None, "console.log(1)"));
    assert_eq!(files.len(), 2);
    assert_eq!(files[0].path, "./worker/metadata.json");
    assert_eq!(files[0].contents, "{\"body_part\":\"script\"}");
    assert!(!files[0].contents.contains("binding"));
    assert_eq!(files[1].path, "./worker/script.js");
    assert_eq!(files[1].contents, format!("{}console.log(1)", PROLOGUE));
    assert!(files.iter().all(|f| f.path != "./worker/module.wasm"));
}

#[test]
fn assemble_with_wasm_writes_the_module_and_patches_fetch() {
    let bundle = Bundle::new();
    let files = bundle.assemble(&output(Some("AGFzbQ=="), "run()"));
    assert_eq!(files.len(), 3);
    assert_eq!(files[0].path, "./worker/metadata.json");
    assert_eq!(files[0].contents, create_metadata(&bundle, true));
    assert_eq!(files[1].path, "./worker/module.wasm");
    assert_eq!(files[1].contents, "AGFzbQ==");
    assert_eq!(files[2].path, "./worker/script.js");
    let expected = format!(
        "{}{}run()",
        PROLOGUE,
        create_wasm_prologue("x".to_string(), "wasmprogram".to_string())
    );
    assert_eq!(files[2].contents, expected);
}

#[test]
fn assemble_keeps_an_empty_script() {
    let bundle = Bundle::new();
    let files = bundle.assemble(&output(None, ""));
    assert_eq!(files[1].contents, PROLOGUE);
}
