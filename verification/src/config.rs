//! What is decided before the first frame: how the graphics are asked for,
//! which theme the application starts with, and what each kind of failure
//! leads to.

use crate::driver::{Failure, RunMode};
use crate::ids::ViewportId;
use vstd::prelude::*;

verus! {

/// Whether the graphics have to be hardware accelerated.
#[derive(Clone, Copy, Debug, PartialEq, Eq, Structural)]
pub enum HardwareAcceleration {
    /// Start only with hardware acceleration.
    Required,
    /// Take hardware acceleration where there is some.
    Preferred,
    /// Do without hardware acceleration.
    Off,
}

/// A colour theme.
#[derive(Clone, Copy, Debug, PartialEq, Eq, Structural)]
pub enum Theme {
    Dark,
    Light,
}

/// How presenting a frame waits for the display.
#[derive(Clone, Copy, Debug, PartialEq, Eq, Structural)]
pub enum SwapInterval {
    /// Present at once.
    DontWait,
    /// Wait for this many refreshes of the display, at least one.
    Wait(u32),
}

/// The profile with which a graphics context is asked for.
#[derive(Clone, Copy, Debug, PartialEq, Eq, Structural)]
pub enum ContextProfile {
    /// What the platform offers by default.
    Preferred,
    /// The reduced profile for embedded systems.
    Fallback,
}

/// The startup options that the graphics set-up reads.
#[derive(Clone, Copy, Debug, PartialEq, Eq, Structural)]
pub struct GraphicsOptions {
    pub hardware_acceleration: HardwareAcceleration,
    pub vsync: bool,
    /// Bits of the depth buffer.
    pub depth_buffer: u8,
    /// Bits of the stencil buffer.
    pub stencil_buffer: u8,
    pub transparent: bool,
    /// Samples per pixel; 0 for no multisampling.
    pub multisampling: u16,
}

/// What a graphics configuration is searched by.
#[derive(Clone, Copy, Debug, PartialEq, Eq, Structural)]
pub struct ConfigTemplate {
    /// `Some(true)` to insist on hardware acceleration, `Some(false)` to
    /// insist on doing without, `None` for no preference.
    pub prefer_hardware_accelerated: Option<bool>,
    pub depth_size: u8,
    pub stencil_size: u8,
    pub transparency: bool,
    /// Samples per pixel, where multisampling is asked for.
    pub multisampling: Option<u8>,
}

/// Why no graphics configuration can be asked for.
#[derive(Clone, Copy, Debug, PartialEq, Eq, Structural)]
pub enum ConfigError {
    /// More samples per pixel than a configuration can name.
    TooManySamples(u16),
}

/// Something that went wrong outside the library.
#[derive(Clone, Copy, Debug, PartialEq, Eq, Structural)]
pub enum Problem {
    /// No graphics configuration fits what was asked for.
    NoGraphicsConfig,
    /// No graphics context could be made with this profile.
    ContextCreation(ContextProfile),
    /// An option of presenting, such as waiting for the display, could not
    /// be set.
    PresentOption,
    /// The surface of this viewport could not be attached for this frame.
    SurfaceAttach(ViewportId),
    /// Handling an event of the platform failed.
    PlatformEvent,
}

/// What to do about a problem.
#[derive(Clone, Copy, Debug, PartialEq, Eq, Structural)]
pub enum Remedy {
    /// Give up starting, with an error for the user.
    AbortStartup,
    /// Try once more, with this profile.
    Retry(ContextProfile),
    /// Note it and go on without.
    Proceed,
    /// Note it and do not paint this viewport in this frame; the next frame
    /// tries again.
    SkipFrame(ViewportId),
    /// Leave the event loop.
    Fail(Failure),
}

pub open spec fn spec_config_template(options: GraphicsOptions) -> Result<
    ConfigTemplate,
    ConfigError,
> {
    if options.multisampling > 255 {
        Err(ConfigError::TooManySamples(options.multisampling))
    } else {
        Ok(
            ConfigTemplate {
                prefer_hardware_accelerated: match options.hardware_acceleration {
                    HardwareAcceleration::Required => Some(true),
                    HardwareAcceleration::Preferred => None,
                    HardwareAcceleration::Off => Some(false),
                },
                depth_size: options.depth_buffer,
                stencil_size: options.stencil_buffer,
                transparency: options.transparent,
                multisampling: if options.multisampling > 0 {
                    Some(options.multisampling as u8)
                } else {
                    None
                },
            },
        )
    }
}

/// What a graphics configuration is searched by, for the given options.
/// Multisampling is asked for only where the options name a number of
/// samples; a number that does not fit a configuration is an error.
#[verifier::when_used_as_spec(spec_config_template)]
pub fn config_template(options: GraphicsOptions) -> (template: Result<ConfigTemplate, ConfigError>)
    ensures
        template == spec_config_template(options),
{
    if options.multisampling > 255 {
        return Err(ConfigError::TooManySamples(options.multisampling));
    }
    let multisampling = if options.multisampling > 0 {
        Some(options.multisampling as u8)
    } else {
        None
    };
    Ok(
        ConfigTemplate {
            prefer_hardware_accelerated: match options.hardware_acceleration {
                HardwareAcceleration::Required => Some(true),
                HardwareAcceleration::Preferred => None,
                HardwareAcceleration::Off => Some(false),
            },
            depth_size: options.depth_buffer,
            stencil_size: options.stencil_buffer,
            transparency: options.transparent,
            multisampling,
        },
    )
}

pub open spec fn spec_swap_interval(vsync: bool) -> SwapInterval {
    if vsync {
        SwapInterval::Wait(1)
    } else {
        SwapInterval::DontWait
    }
}

/// How presenting a frame waits for the display: for one refresh with
/// vertical sync, not at all without.
#[verifier::when_used_as_spec(spec_swap_interval)]
pub fn swap_interval(vsync: bool) -> (interval: SwapInterval)
    ensures
        interval == spec_swap_interval(vsync),
{
    if vsync {
        SwapInterval::Wait(1)
    } else {
        SwapInterval::DontWait
    }
}

pub open spec fn spec_surface_samples(multisampling: u16) -> u32 {
    if multisampling == 0 {
        1
    } else {
        multisampling as u32
    }
}

/// The samples per pixel of a surface that is painted without a shared
/// context: what the options name, and one where they name none.
#[verifier::when_used_as_spec(spec_surface_samples)]
pub fn surface_samples(multisampling: u16) -> (samples: u32)
    ensures
        samples == spec_surface_samples(multisampling),
{
    if multisampling == 0 {
        1
    } else {
        multisampling as u32
    }
}

pub open spec fn spec_system_theme(follow_system_theme: bool, window_theme: Option<Theme>) -> Option<
    Theme,
> {
    if follow_system_theme {
        window_theme
    } else {
        None
    }
}

/// The theme of the system as the main window reports it, where the
/// options say to follow it.
#[verifier::when_used_as_spec(spec_system_theme)]
pub fn system_theme(follow_system_theme: bool, window_theme: Option<Theme>) -> (theme: Option<Theme>)
    ensures
        theme == spec_system_theme(follow_system_theme, window_theme),
{
    if follow_system_theme {
        window_theme
    } else {
        None
    }
}

pub open spec fn spec_initial_theme(system: Option<Theme>, default_theme: Theme) -> Theme {
    match system {
        Some(theme) => theme,
        None => default_theme,
    }
}

/// The theme that the application starts with: the system's, where it is
/// followed and known, else the default of the options.
#[verifier::when_used_as_spec(spec_initial_theme)]
pub fn initial_theme(system: Option<Theme>, default_theme: Theme) -> (theme: Theme)
    ensures
        theme == spec_initial_theme(system, default_theme),
{
    match system {
        Some(theme) => theme,
        None => default_theme,
    }
}

pub open spec fn spec_remedy(mode: RunMode, problem: Problem) -> Remedy {
    match problem {
        Problem::NoGraphicsConfig => Remedy::AbortStartup,
        Problem::ContextCreation(ContextProfile::Preferred) => Remedy::Retry(
            ContextProfile::Fallback,
        ),
        Problem::ContextCreation(ContextProfile::Fallback) => Remedy::AbortStartup,
        Problem::PresentOption => Remedy::Proceed,
        Problem::SurfaceAttach(viewport) => Remedy::SkipFrame(viewport),
        Problem::PlatformEvent => Remedy::Fail(mode.on_failure()),
    }
}

/// What to do about a problem.
///
/// Without a graphics configuration the application does not start. A
/// context that cannot be made with the preferred profile is tried once
/// more with the fallback profile, and without that the application does
/// not start. An option of presenting that cannot be set is done without.
/// A surface that cannot be attached costs its viewport one frame. A
/// failure to handle an event ends the loop, as its way of running says.
#[verifier::when_used_as_spec(spec_remedy)]
pub fn remedy(mode: RunMode, problem: Problem) -> (remedy: Remedy)
    ensures
        remedy == spec_remedy(mode, problem),
{
    match problem {
        Problem::NoGraphicsConfig => Remedy::AbortStartup,
        Problem::ContextCreation(profile) => match profile {
            ContextProfile::Preferred => Remedy::Retry(ContextProfile::Fallback),
            ContextProfile::Fallback => Remedy::AbortStartup,
        },
        Problem::PresentOption => Remedy::Proceed,
        Problem::SurfaceAttach(viewport) => Remedy::SkipFrame(viewport),
        Problem::PlatformEvent => Remedy::Fail(mode.on_failure()),
    }
}

} // verus!
