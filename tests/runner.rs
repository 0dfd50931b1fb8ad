use wranglerjs::bundle::WrangerjsOutput;
use wranglerjs::runner::{
    build_args, build_step, executable_path, install_args, install_outcome, npm_install_args,
    wasm_pack_env_var, BuildAction, BuildError, BuildEvent, InstallError,
};

fn sample_output() -> WrangerjsOutput {
    WrangerjsOutput {
        wasm: None,
        wasm_name: "x".to_string(),
        script: "console.log(1)".to_string(),
        dist_to_clean: "/tmp/d".to_string(),
        wasm_size: 0,
        script_size: 14,
    }
}

#[test]
fn executable_lives_in_node_modules() {
    assert_eq!(executable_path(), "./node_modules/.bin/wrangler-js");
    assert_eq!(wasm_pack_env_var(), "WASM_PACK_PATH");
}

#[test]
fn args_with_webpack_config_name_only_the_output_file() {
    let args = build_args("/tmp/.wranglerjs_output", true, "/p/index.js");
    assert_eq!(args, vec!["--output-file=/tmp/.wranglerjs_output".to_string()]);
}

#[test]
fn args_without_webpack_config_name_the_entry() {
    let args = build_args("/tmp/.wranglerjs_output", false, "/p/index.js");
    assert_eq!(
        args,
        vec![
            "--output-file=/tmp/.wranglerjs_output".to_string(),
            "--no-webpack-config=1".to_string(),
            "--use-entry=/p/index.js".to_string(),
        ]
    );
}

#[test]
fn successful_exit_leads_to_decoding() {
    let event = BuildEvent::Exited {
        success: true,
        command: "wrangler-js".to_string(),
        status: "exit status: 0".to_string(),
    };
    assert_eq!(build_step(event), BuildAction::DecodeOutput);
}

#[test]
fn failed_exit_is_tool_failed() {
    let event = BuildEvent::Exited {
        success: false,
        command: "wrangler-js --output-file=/tmp/o".to_string(),
        status: "exit status: 2".to_string(),
    };
    assert_eq!(
        build_step(event),
        BuildAction::Finish(Err(BuildError::ToolFailed {
            command: "wrangler-js --output-file=/tmp/o".to_string(),
            status: "exit status: 2".to_string(),
        }))
    );
}

#[test]
fn undecodable_output_is_malformed() {
    let event = BuildEvent::Decoded(Err("expected value at line 1 column 1".to_string()));
    assert_eq!(
        build_step(event),
        BuildAction::Finish(Err(BuildError::MalformedOutput(
            "expected value at line 1 column 1".to_string()
        )))
    );
}

#[test]
fn decoded_output_finishes_the_build() {
    let event = BuildEvent::Decoded(Ok(sample_output()));
    assert_eq!(build_step(event), BuildAction::Finish(Ok(sample_output())));
}

#[test]
fn install_commands() {
    assert_eq!(install_args(), vec!["install".to_string(), "wrangler-js".to_string()]);
    assert_eq!(npm_install_args(), vec!["install".to_string()]);
}

#[test]
fn install_outcome_follows_the_exit_status() {
    assert_eq!(install_outcome(true, "npm install".to_string(), "exit status: 0".to_string()), Ok(()));
    assert_eq!(
        install_outcome(false, "npm install".to_string(), "exit status: 1".to_string()),
        Err(InstallError::NonZeroExit {
            command: "npm install".to_string(),
            status: "exit status: 1".to_string(),
        })
    );
}
