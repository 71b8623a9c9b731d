//! Packaging a release binary: build it for a target, then strip its debug
//! symbols. The library decides each next step; the caller runs the tools.
use vstd::prelude::*;

verus! {

/// The context of a failed build.
pub const BUILD_CONTEXT: &'static str = "Could not build Rover.";

/// The context of a failed strip.
pub const STRIP_CONTEXT: &'static str = "Could not strip symbols from Rover's binary";

/// The packaging command: the target platform to build for.
pub struct Dist {
    pub target: String,
}

/// What the tools reported since the last step.
pub enum DistEvent {
    /// Nothing has run yet.
    Started,
    /// The build tool could not be set up.
    SetupFailed(String),
    /// The build produced the binary at this path.
    Built(String),
    /// The build failed with this cause.
    BuildFailed(String),
    /// The binary's symbols were stripped.
    Stripped,
    /// Stripping failed with this cause.
    StripFailed(String),
}

/// Why packaging failed: the cause, under its context where it has one.
pub enum DistError {
    Setup(String),
    Build(String),
    Strip(String),
}

/// What to do next.
pub enum DistAction {
    /// Build for the target.
    Build { target: String, verbose: bool },
    /// Strip the binary at this path.
    Strip { binary_path: String, verbose: bool },
    /// Packaging is over, with this outcome.
    Finish(Result<(), DistError>),
}

impl DistError {
    /// The context under which the cause is reported, if any.
    pub fn context(&self) -> (r: Option<&'static str>)
        ensures
            r == (match self {
                DistError::Setup(_) => None::<&'static str>,
                DistError::Build(_) => Some(BUILD_CONTEXT),
                DistError::Strip(_) => Some(STRIP_CONTEXT),
            }),
    {
        match self {
            DistError::Setup(_) => None,
            DistError::Build(_) => Some(BUILD_CONTEXT),
            DistError::Strip(_) => Some(STRIP_CONTEXT),
        }
    }
}

/// The action that follows an event: build first, strip the built binary,
/// and stop at the first failure with its context.
pub open spec fn next_action(target: Seq<char>, verbose: bool, event: DistEvent, r: DistAction) -> bool {
    match event {
        DistEvent::Started => r matches DistAction::Build { target: t, verbose: v } && t@ == target
            && v == verbose,
        DistEvent::Built(path) => r matches DistAction::Strip { binary_path: p, verbose: v } && p@
            == path@ && v == verbose,
        DistEvent::Stripped => r matches DistAction::Finish(Ok(())),
        DistEvent::SetupFailed(c) => r matches DistAction::Finish(Err(DistError::Setup(e))) && e@
            == c@,
        DistEvent::BuildFailed(c) => r matches DistAction::Finish(Err(DistError::Build(e))) && e@
            == c@,
        DistEvent::StripFailed(c) => r matches DistAction::Finish(Err(DistError::Strip(e))) && e@
            == c@,
    }
}

impl Dist {
    /// Decides the next packaging step from what the tools last reported.
    pub fn run(&self, verbose: bool, event: DistEvent) -> (r: DistAction)
        ensures
            next_action(self.target@, verbose, event, r),
    {
        match event {
            DistEvent::Started => DistAction::Build { target: self.target.clone(), verbose },
            DistEvent::Built(path) => DistAction::Strip { binary_path: path, verbose },
            DistEvent::Stripped => DistAction::Finish(Ok(())),
            DistEvent::SetupFailed(cause) => DistAction::Finish(Err(DistError::Setup(cause))),
            DistEvent::BuildFailed(cause) => DistAction::Finish(Err(DistError::Build(cause))),
            DistEvent::StripFailed(cause) => DistAction::Finish(Err(DistError::Strip(cause))),
        }
    }
}

} // verus!
