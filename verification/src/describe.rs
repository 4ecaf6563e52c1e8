//! Short names of events, for profilers and logs.

use crate::event::{DeviceEvent, Event, StartCause, UserEvent, WindowEvent};
use vstd::prelude::*;

verus! {

/// The short name of an event: its kind, without what it carries.
pub open spec fn description_of(event: Event) -> Seq<char> {
    match event {
        Event::Suspended => "Event::Suspended"@,
        Event::Resumed => "Event::Resumed"@,
        Event::MainEventsCleared => "Event::MainEventsCleared"@,
        Event::RedrawRequested(_) => "Event::RedrawRequested"@,
        Event::RedrawEventsCleared => "Event::RedrawEventsCleared"@,
        Event::LoopDestroyed => "Event::LoopDestroyed"@,
        Event::UserEvent(user) => match user {
            UserEvent::RequestRepaint { .. } => "UserEvent::RequestRepaint"@,
            UserEvent::AccessKitActionRequest { .. } => "UserEvent::AccessKitActionRequest"@,
        },
        Event::DeviceEvent(device) => match device {
            DeviceEvent::Added => "DeviceEvent::Added"@,
            DeviceEvent::Removed => "DeviceEvent::Removed"@,
            DeviceEvent::MouseMotion => "DeviceEvent::MouseMotion"@,
            DeviceEvent::MouseWheel => "DeviceEvent::MouseWheel"@,
            DeviceEvent::Motion => "DeviceEvent::Motion"@,
            DeviceEvent::Button => "DeviceEvent::Button"@,
            DeviceEvent::Key => "DeviceEvent::Key"@,
            DeviceEvent::Text => "DeviceEvent::Text"@,
        },
        Event::NewEvents(cause) => match cause {
            StartCause::ResumeTimeReached => "NewEvents::ResumeTimeReached"@,
            StartCause::WaitCancelled => "NewEvents::WaitCancelled"@,
            StartCause::Poll => "NewEvents::Poll"@,
            StartCause::Init => "NewEvents::Init"@,
        },
        Event::WindowEvent { event, .. } => match event {
            WindowEvent::Resized { .. } => "WindowEvent::Resized"@,
            WindowEvent::Moved => "WindowEvent::Moved"@,
            WindowEvent::CloseRequested => "WindowEvent::CloseRequested"@,
            WindowEvent::Destroyed => "WindowEvent::Destroyed"@,
            WindowEvent::DroppedFile => "WindowEvent::DroppedFile"@,
            WindowEvent::HoveredFile => "WindowEvent::HoveredFile"@,
            WindowEvent::HoveredFileCancelled => "WindowEvent::HoveredFileCancelled"@,
            WindowEvent::ReceivedCharacter => "WindowEvent::ReceivedCharacter"@,
            WindowEvent::Focused(_) => "WindowEvent::Focused"@,
            WindowEvent::KeyboardInput => "WindowEvent::KeyboardInput"@,
            WindowEvent::ModifiersChanged => "WindowEvent::ModifiersChanged"@,
            WindowEvent::Ime => "WindowEvent::Ime"@,
            WindowEvent::CursorMoved => "WindowEvent::CursorMoved"@,
            WindowEvent::CursorEntered => "WindowEvent::CursorEntered"@,
            WindowEvent::CursorLeft => "WindowEvent::CursorLeft"@,
            WindowEvent::MouseWheel => "WindowEvent::MouseWheel"@,
            WindowEvent::MouseInput => "WindowEvent::MouseInput"@,
            WindowEvent::TouchpadMagnify => "WindowEvent::TouchpadMagnify"@,
            WindowEvent::SmartMagnify => "WindowEvent::SmartMagnify"@,
            WindowEvent::TouchpadRotate => "WindowEvent::TouchpadRotate"@,
            WindowEvent::TouchpadPressure => "WindowEvent::TouchpadPressure"@,
            WindowEvent::AxisMotion => "WindowEvent::AxisMotion"@,
            WindowEvent::Touch => "WindowEvent::Touch"@,
            WindowEvent::ScaleFactorChanged { .. } => "WindowEvent::ScaleFactorChanged"@,
            WindowEvent::ThemeChanged => "WindowEvent::ThemeChanged"@,
            WindowEvent::Occluded => "WindowEvent::Occluded"@,
        },
    }
}

/// The short name of an event.
pub fn short_event_description(event: &Event) -> (name: &'static str)
    ensures
        name@ == description_of(*event),
{
    match event {
        Event::Suspended => "Event::Suspended",
        Event::Resumed => "Event::Resumed",
        Event::MainEventsCleared => "Event::MainEventsCleared",
        Event::RedrawRequested(_) => "Event::RedrawRequested",
        Event::RedrawEventsCleared => "Event::RedrawEventsCleared",
        Event::LoopDestroyed => "Event::LoopDestroyed",
        Event::UserEvent(user) => match user {
            UserEvent::RequestRepaint { .. } => "UserEvent::RequestRepaint",
            UserEvent::AccessKitActionRequest { .. } => "UserEvent::AccessKitActionRequest",
        },
        Event::DeviceEvent(device) => match device {
            DeviceEvent::Added => "DeviceEvent::Added",
            DeviceEvent::Removed => "DeviceEvent::Removed",
            DeviceEvent::MouseMotion => "DeviceEvent::MouseMotion",
            DeviceEvent::MouseWheel => "DeviceEvent::MouseWheel",
            DeviceEvent::Motion => "DeviceEvent::Motion",
            DeviceEvent::Button => "DeviceEvent::Button",
            DeviceEvent::Key => "DeviceEvent::Key",
            DeviceEvent::Text => "DeviceEvent::Text",
        },
        Event::NewEvents(cause) => match cause {
            StartCause::ResumeTimeReached => "NewEvents::ResumeTimeReached",
            StartCause::WaitCancelled => "NewEvents::WaitCancelled",
            StartCause::Poll => "NewEvents::Poll",
            StartCause::Init => "NewEvents::Init",
        },
        Event::WindowEvent { event, .. } => match event {
            WindowEvent::Resized { .. } => "WindowEvent::Resized",
            WindowEvent::Moved => "WindowEvent::Moved",
            WindowEvent::CloseRequested => "WindowEvent::CloseRequested",
            WindowEvent::Destroyed => "WindowEvent::Destroyed",
            WindowEvent::DroppedFile => "WindowEvent::DroppedFile",
            WindowEvent::HoveredFile => "WindowEvent::HoveredFile",
            WindowEvent::HoveredFileCancelled => "WindowEvent::HoveredFileCancelled",
            WindowEvent::ReceivedCharacter => "WindowEvent::ReceivedCharacter",
            WindowEvent::Focused(_) => "WindowEvent::Focused",
            WindowEvent::KeyboardInput => "WindowEvent::KeyboardInput",
            WindowEvent::ModifiersChanged => "WindowEvent::ModifiersChanged",
            WindowEvent::Ime => "WindowEvent::Ime",
            WindowEvent::CursorMoved => "WindowEvent::CursorMoved",
            WindowEvent::CursorEntered => "WindowEvent::CursorEntered",
            WindowEvent::CursorLeft => "WindowEvent::CursorLeft",
            WindowEvent::MouseWheel => "WindowEvent::MouseWheel",
            WindowEvent::MouseInput => "WindowEvent::MouseInput",
            WindowEvent::TouchpadMagnify => "WindowEvent::TouchpadMagnify",
            WindowEvent::SmartMagnify => "WindowEvent::SmartMagnify",
            WindowEvent::TouchpadRotate => "WindowEvent::TouchpadRotate",
            WindowEvent::TouchpadPressure => "WindowEvent::TouchpadPressure",
            WindowEvent::AxisMotion => "WindowEvent::AxisMotion",
            WindowEvent::Touch => "WindowEvent::Touch",
            WindowEvent::ScaleFactorChanged { .. } => "WindowEvent::ScaleFactorChanged",
            WindowEvent::ThemeChanged => "WindowEvent::ThemeChanged",
            WindowEvent::Occluded => "WindowEvent::Occluded",
        },
    }
}

} // verus!
