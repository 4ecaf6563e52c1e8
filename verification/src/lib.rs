//! The decisions of a multi-window immediate-mode UI event loop: when to
//! repaint which window, which windows should exist, and how a platform
//! event changes that.

pub mod builder;
pub mod config;
pub mod context;
pub mod describe;
pub mod driver;
pub mod event;
pub mod id_map;
pub mod ids;
pub mod schedule;
pub mod shell;
pub mod viewports;

pub use config::{
    ConfigError, ConfigTemplate, ContextProfile, GraphicsOptions, HardwareAcceleration, Problem,
    Remedy, SwapInterval, Theme,
};
pub use context::{Context, ContextSteps};
pub use describe::short_event_description;
pub use driver::{dispatch, Dispatch, Failure, RunMode};
pub use event::{DeviceEvent, Event, EventResult, StartCause, UserEvent, WindowEvent};
pub use id_map::{Id, IdMap};
pub use ids::{Instant, ViewportId, ViewportIdPair, WindowId};
pub use schedule::{Batch, IdlePlan, RepaintSchedule, Step, WaitPolicy};
pub use shell::{
    EventResponse, Forward, FrameActions, FrameOutput, Paint, RepaintAfter, Resume, Shell,
    ShellView, Shutdown, SyncRender, WindowEventStep,
};
pub use viewports::{
    ClosedWindow, Declared, Reconciled, RenderId, SurfaceSize, ViewportOutput, Viewports,
    ViewportsView, Window, WindowCommands,
};
