//! The command line: what was asked for, and what that comes to.
use vstd::prelude::*;

verus! {

/// The arguments of the program.
pub struct CliArgs {
    pub command: Option<Commands>,
    /// The collection file.
    pub collection: Option<std::path::PathBuf>,
}

/// The subcommands.
pub enum Commands {
    /// Open the interface, on the given collection file or on the one
    /// found.
    Open { collection: Option<std::path::PathBuf> },
    /// Make a new collection in the working directory.
    Init,
    /// Run the request called `name` without the interface.
    HeadlessRun { name: String, collection: Option<std::path::PathBuf> },
    /// Write the last response to `path`.
    Export { path: std::path::PathBuf },
}

/// What the program is to do.
pub enum Task {
    /// Open the interface on this collection, or on the one found.
    Open(Option<std::path::PathBuf>),
    /// Make a new collection.
    Init,
    /// Run the request of this name from this collection, or from the one
    /// found.
    Run(String, Option<std::path::PathBuf>),
    /// Write the last response to this file.
    Export(std::path::PathBuf),
}

impl CliArgs {
    /// What the arguments ask for. Without a subcommand the interface
    /// opens, on the collection named by the option.
    pub open spec fn task_of(self) -> Task {
        match self.command {
            Some(Commands::Open { collection }) => Task::Open(collection),
            Some(Commands::Init) => Task::Init,
            Some(Commands::HeadlessRun { name, collection }) => Task::Run(name, collection),
            Some(Commands::Export { path }) => Task::Export(path),
            None => Task::Open(self.collection),
        }
    }

    /// What the arguments ask for.
    pub fn task(self) -> (t: Task)
        ensures
            t == self.task_of(),
    {
        match self.command {
            Some(Commands::Open { collection }) => Task::Open(collection),
            Some(Commands::Init) => Task::Init,
            Some(Commands::HeadlessRun { name, collection }) => Task::Run(name, collection),
            Some(Commands::Export { path }) => Task::Export(path),
            None => Task::Open(self.collection),
        }
    }
}

} // verus!
