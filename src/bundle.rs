//! The bundle: the fixed output directory, the code injected ahead of the
//! bundler's script, the metadata that describes the bindings, and the set
//! of files that make up a finished bundle.
use vstd::prelude::*;
use vstd::string::*;

verus! {

/// What `wrangler-js` reports once it has completed, with sizes held as
/// whole byte counts.
#[derive(Debug, Clone, PartialEq, Eq)]
pub struct WrangerjsOutput {
    /// The compiled wasm module, if the project has one.
    pub wasm: Option<String>,
    /// The name under which the script fetches the wasm module.
    pub wasm_name: String,
    /// The bundled script.
    pub script: String,
    /// The directory the bundler worked in, to be removed afterwards.
    pub dist_to_clean: String,
    pub wasm_size: u64,
    pub script_size: u64,
}

/// One file of a finished bundle: where it goes and what it holds.
#[derive(Debug, Clone, PartialEq, Eq)]
pub struct ArtifactFile {
    pub path: String,
    pub contents: String,
}

impl View for ArtifactFile {
    type V = (Seq<char>, Seq<char>);

    open spec fn view(&self) -> (Seq<char>, Seq<char>) {
        (self.path@, self.contents@)
    }
}

/// The output of the bundler, written to a fixed directory.
#[derive(Debug, Clone, Copy, PartialEq, Eq)]
pub struct Bundle {}

/// The directory that holds the bundle.
pub open spec fn bundle_dir() -> Seq<char> {
    "./worker"@
}

/// The path of `file` inside the bundle directory.
pub open spec fn in_bundle(file: Seq<char>) -> Seq<char> {
    bundle_dir() + "/"@ + file
}

pub open spec fn metadata_file() -> Seq<char> {
    in_bundle("metadata.json"@)
}

pub open spec fn wasm_file() -> Seq<char> {
    in_bundle("module.wasm"@)
}

pub open spec fn script_file() -> Seq<char> {
    in_bundle("script.js"@)
}

/// The name of the binding through which the script reaches the wasm module.
pub open spec fn wasm_binding() -> Seq<char> {
    "wasmprogram"@
}

/// Code placed ahead of every script: it provides `window`.
pub open spec fn prologue() -> Seq<char> {
    "\n        const window = this;\n    "@
}

/// Code placed ahead of a script that uses wasm: `fetch(name)` resolves to
/// the module bound as `binding`; any other fetch goes to the original.
pub open spec fn wasm_prologue(name: Seq<char>, binding: Seq<char>) -> Seq<char> {
    "\n            const oldFetch = fetch;\n            function fetch(name) {\n              if (name === \""@
        + name
        + "\") {\n                return Promise.resolve({\n                  arrayBuffer() {\n                    return "@
        + binding
        + "; // defined in bindings\n                  }\n                });\n              }\n              return oldFetch(name);\n            }\n        "@
}

/// The metadata of a bundle, with a wasm binding of the given name or none.
pub open spec fn metadata(binding: Option<Seq<char>>) -> Seq<char> {
    match binding {
        None => "{\"body_part\":\"script\"}"@,
        Some(b) => "{\"body_part\":\"script\",\"binding\":{\"name\":\""@ + b
            + "\",\"type\":\"wasm_module\",\"part\":\""@ + b + "\"}}"@,
    }
}

/// The binding that the metadata names: the wasm binding exactly when there is
/// a wasm module.
pub open spec fn binding_for(has_wasm: bool) -> Option<Seq<char>> {
    if has_wasm {
        Some(wasm_binding())
    } else {
        None
    }
}

/// The script of a bundle: the prologue, the wasm prologue when there is a
/// module, then the bundler's script.
pub open spec fn script_body(o: WrangerjsOutput) -> Seq<char> {
    let wasm_part = match o.wasm {
        Some(_) => wasm_prologue(o.wasm_name@, wasm_binding()),
        None => Seq::empty(),
    };
    prologue() + wasm_part + o.script@
}

/// The files of the bundle built from `o`, in the order they are written:
/// metadata, the wasm module if there is one, the script.
pub open spec fn artifacts(o: WrangerjsOutput) -> Seq<(Seq<char>, Seq<char>)> {
    let meta = (metadata_file(), metadata(binding_for(o.wasm is Some)));
    let script = (script_file(), script_body(o));
    match o.wasm {
        Some(w) => seq![meta, (wasm_file(), w@), script],
        None => seq![meta, script],
    }
}

/// A bundle holds a wasm module file exactly when the bundler produced a
/// module, and its metadata agrees: plain `{"body_part":"script"}` without a
/// module, and with one a binding whose `name` and `part` are both the wasm
/// binding.
pub proof fn lemma_module_and_metadata_agree(o: WrangerjsOutput)
    ensures
        artifacts(o)[0].0 == metadata_file(),
        o.wasm is None ==> artifacts(o)[0].1 == "{\"body_part\":\"script\"}"@,
        o.wasm is Some ==> artifacts(o)[0].1 == metadata(Some(wasm_binding())),
        (exists|i: int| 0 <= i < artifacts(o).len() && #[trigger] artifacts(o)[i].0 == wasm_file())
            <==> o.wasm is Some,
{
    reveal_strlit("./worker");
    reveal_strlit("/");
    reveal_strlit("metadata.json");
    reveal_strlit("module.wasm");
    reveal_strlit("script.js");
    assert(metadata_file()[10] != wasm_file()[10]);
    assert(script_file()[9] != wasm_file()[9]);
    if o.wasm is Some {
        assert(artifacts(o)[1].0 == wasm_file());
    }
}

/// The script of a bundle starts with the prologue; the wasm prologue follows
/// it, ahead of the bundler's script, exactly when there is a module, and the
/// bundler's script comes last.
pub proof fn lemma_script_layout(o: WrangerjsOutput)
    ensures
        artifacts(o).last().0 == script_file(),
        artifacts(o).last().1.subrange(0, prologue().len() as int) == prologue(),
        o.wasm is Some ==> artifacts(o).last().1 == prologue() + wasm_prologue(
            o.wasm_name@,
            wasm_binding(),
        ) + o.script@,
        o.wasm is None ==> artifacts(o).last().1 == prologue() + o.script@,
{
    let body = artifacts(o).last().1;
    assert(body.subrange(0, prologue().len() as int) =~= prologue());
    if o.wasm is None {
        assert(body =~= prologue() + o.script@);
    }
}

fn in_bundle_path(file: &str) -> (r: String)
    ensures
        r@ == in_bundle(file@),
{
    let mut r = String::from_str("./worker");
    r.append("/");
    r.append(file);
    r
}

impl Bundle {
    pub fn new() -> (r: Bundle) {
        Bundle {  }
    }

    /// The directory that holds the bundle.
    pub fn out_dir(&self) -> (r: String)
        ensures
            r@ == bundle_dir(),
    {
        String::from_str("./worker")
    }

    pub fn metadata_path(&self) -> (r: String)
        ensures
            r@ == metadata_file(),
    {
        in_bundle_path("metadata.json")
    }

    pub fn wasm_path(&self) -> (r: String)
        ensures
            r@ == wasm_file(),
    {
        in_bundle_path("module.wasm")
    }

    pub fn script_path(&self) -> (r: String)
        ensures
            r@ == script_file(),
    {
        in_bundle_path("script.js")
    }

    pub fn get_wasm_binding(&self) -> (r: String)
        ensures
            r@ == wasm_binding(),
    {
        String::from_str("wasmprogram")
    }

    /// The files of the bundle built from `output`. They are to be written
    /// before `output.dist_to_clean` is removed.
    pub fn assemble(&self, output: &WrangerjsOutput) -> (r: Vec<ArtifactFile>)
        ensures
            r@.len() == artifacts(*output).len(),
            forall|i: int| 0 <= i < r@.len() ==> #[trigger] r@[i]@ == artifacts(*output)[i],
    {
        let mut files: Vec<ArtifactFile> = Vec::new();
        let has_wasm = output.wasm.is_some();
        files.push(ArtifactFile { path: self.metadata_path(), contents: create_metadata(self, has_wasm) });
        let mut script = create_prologue();
        match &output.wasm {
            Some(wasm) => {
                files.push(ArtifactFile { path: self.wasm_path(), contents: wasm.clone() });
                let wp = create_wasm_prologue(output.wasm_name.clone(), self.get_wasm_binding());
                script.append(wp.as_str());
            },
            None => {},
        }
        script.append(output.script.as_str());
        files.push(ArtifactFile { path: self.script_path(), contents: script });
        proof {
            let a = artifacts(*output);
            assert(script@ =~= script_body(*output));
            assert(files@.len() == a.len());
            assert forall|i: int| 0 <= i < files@.len() implies #[trigger] files@[i]@ == a[i] by {}
        }
        files
    }
}

/// The code placed ahead of every script.
pub fn create_prologue() -> (r: String)
    ensures
        r@ == prologue(),
{
    String::from_str("\n        const window = this;\n    ")
}

/// The code placed ahead of a script that fetches its wasm module as `name`,
/// bound as `binding`.
pub fn create_wasm_prologue(name: String, binding: String) -> (r: String)
    ensures
        r@ == wasm_prologue(name@, binding@),
{
    let mut r = String::from_str(
        "\n            const oldFetch = fetch;\n            function fetch(name) {\n              if (name === \"",
    );
    r.append(name.as_str());
    r.append(
        "\") {\n                return Promise.resolve({\n                  arrayBuffer() {\n                    return ",
    );
    r.append(binding.as_str());
    r.append(
        "; // defined in bindings\n                  }\n                });\n              }\n              return oldFetch(name);\n            }\n        ",
    );
    r
}

/// The metadata of `bundle`, which binds the wasm module exactly when
/// `has_wasm` holds.
pub fn create_metadata(bundle: &Bundle, has_wasm: bool) -> (r: String)
    ensures
        r@ == metadata(binding_for(has_wasm)),
{
    if has_wasm {
        let name = bundle.get_wasm_binding();
        let mut r = String::from_str("{\"body_part\":\"script\",\"binding\":{\"name\":\"");
        r.append(name.as_str());
        r.append("\",\"type\":\"wasm_module\",\"part\":\"");
        r.append(name.as_str());
        r.append("\"}}");
        r
    } else {
        String::from_str("{\"body_part\":\"script\"}")
    }
}

} // verus!
