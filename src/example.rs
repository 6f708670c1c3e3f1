//! A minimal plugin that shows the plugin contract: one command that only
//! reports that it ran.
use vstd::prelude::*;
use crate::dispatch::ResultCode;
use crate::plugin::{MetaCommand, Plugin};

verus! {

/// The example plugin.
pub struct ExamplePlugin;

/// Its single command, `example`.
pub struct ExampleCommand;

impl MetaCommand for ExampleCommand {
    open spec fn spec_name(&self) -> Seq<char> {
        "example"@
    }

    fn name(&self) -> (r: String) {
        "example".to_string()
    }
}

impl ExampleCommand {
    /// Runs the command: nothing is left to do with the input line.
    pub fn execute(&self) -> (r: ResultCode)
        ensures
            r == ResultCode::SkipLine,
    {
        ResultCode::SkipLine
    }
}

impl Plugin for ExamplePlugin {
    type Command = ExampleCommand;

    open spec fn spec_name(&self) -> Seq<char> {
        "example"@
    }

    open spec fn spec_commands(&self) -> Seq<Seq<char>> {
        seq!["example"@]
    }

    fn name(&self) -> (r: String) {
        "example".to_string()
    }

    fn version(&self) -> String {
        "0.1.0".to_string()
    }

    fn meta_commands(&self) -> (r: Vec<ExampleCommand>) {
        vec![ExampleCommand]
    }
}

} // verus!
