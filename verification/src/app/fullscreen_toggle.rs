//! Switching a window between windowed and borderless fullscreen.
use vstd::prelude::*;

verus! {

/// A display mode of a monitor.
#[derive(Debug, Clone, Copy, PartialEq, Eq)]
pub struct VideoMode {
    pub width: u32,
    pub height: u32,
    pub refresh_rate: u32,
}

/// Where and how a window is to be shown. The window stays in windowed
/// mode; fullscreen is a borderless window that covers the monitor.
#[derive(Debug, Clone, Copy, PartialEq, Eq)]
pub struct WindowPlacement {
    pub decorated: bool,
    pub x: i32,
    pub y: i32,
    pub width: u32,
    pub height: u32,
    pub refresh_rate: Option<u32>,
}

/// Why the window could not be toggled.
#[derive(Debug, Clone, Copy, PartialEq, Eq)]
pub enum ToggleError {
    NoPrimaryMonitor,
    NoVideoMode,
}

/// A helper for toggling fullscreen on a window: it remembers where the
/// window was and how large it was, so that leaving fullscreen puts it back.
#[derive(Debug, Clone, Copy, PartialEq, Eq)]
pub struct FullscreenToggle {
    pos: (i32, i32),
    framebuffer_size: (u32, u32),
    is_fullscreen: bool,
}

/// The window size that a toggle remembers for a framebuffer size.
pub open spec fn remembered_size(framebuffer_size: (i32, i32)) -> (u32, u32) {
    (framebuffer_size.0 as u32, framebuffer_size.1 as u32)
}

impl FullscreenToggle {
    pub closed spec fn spec_pos(&self) -> (i32, i32) {
        self.pos
    }

    pub closed spec fn spec_framebuffer_size(&self) -> (u32, u32) {
        self.framebuffer_size
    }

    pub closed spec fn spec_is_fullscreen(&self) -> bool {
        self.is_fullscreen
    }

    /// The outcome of a toggle from this state, given whether there is a
    /// primary monitor, the window's current position and framebuffer size,
    /// and the monitor's video mode: the next state and the placement to
    /// apply.
    pub closed spec fn spec_toggle(
        self,
        has_primary_monitor: bool,
        window_pos: (i32, i32),
        framebuffer_size: (i32, i32),
        video_mode: Option<VideoMode>,
    ) -> (Self, Result<WindowPlacement, ToggleError>) {
        if !has_primary_monitor {
            (self, Err(ToggleError::NoPrimaryMonitor))
        } else if self.is_fullscreen {
            (
                FullscreenToggle { is_fullscreen: false, ..self },
                Ok(
                    WindowPlacement {
                        decorated: true,
                        x: self.pos.0,
                        y: self.pos.1,
                        width: self.framebuffer_size.0,
                        height: self.framebuffer_size.1,
                        refresh_rate: None,
                    },
                ),
            )
        } else {
            let saved = FullscreenToggle {
                pos: window_pos,
                framebuffer_size: remembered_size(framebuffer_size),
                ..self
            };
            match video_mode {
                None => (saved, Err(ToggleError::NoVideoMode)),
                Some(mode) => (
                    FullscreenToggle { is_fullscreen: true, ..saved },
                    Ok(
                        WindowPlacement {
                            decorated: false,
                            x: 0,
                            y: 0,
                            width: mode.width,
                            height: mode.height,
                            refresh_rate: Some(mode.refresh_rate),
                        },
                    ),
                ),
            }
        }
    }

    /// Create a new fullscreen toggle for a window that is shown windowed at
    /// `pos` with a framebuffer of `framebuffer_size`.
    pub fn new(pos: (i32, i32), framebuffer_size: (i32, i32)) -> (r: Self)
        ensures
            r.spec_pos() == pos,
            r.spec_framebuffer_size() == remembered_size(framebuffer_size),
            !r.spec_is_fullscreen(),
    {
        let (w, h) = framebuffer_size;
        FullscreenToggle { pos, framebuffer_size: (w as u32, h as u32), is_fullscreen: false }
    }

    /// Switch to fullscreen if windowed, switch back to windowed if
    /// fullscreen. Going fullscreen remembers the window's position and size
    /// first, and fails when the monitor has no video mode; going back
    /// restores what was remembered.
    pub fn toggle_fullscreen(
        &mut self,
        has_primary_monitor: bool,
        window_pos: (i32, i32),
        framebuffer_size: (i32, i32),
        video_mode: Option<VideoMode>,
    ) -> (r: Result<WindowPlacement, ToggleError>)
        ensures
            (*final(self), r) == old(self).spec_toggle(
                has_primary_monitor,
                window_pos,
                framebuffer_size,
                video_mode,
            ),
    {
        if !has_primary_monitor {
            return Err(ToggleError::NoPrimaryMonitor);
        }
        if self.is_fullscreen {
            self.is_fullscreen = false;
            Ok(
                WindowPlacement {
                    decorated: true,
                    x: self.pos.0,
                    y: self.pos.1,
                    width: self.framebuffer_size.0,
                    height: self.framebuffer_size.1,
                    refresh_rate: None,
                },
            )
        } else {
            self.pos = window_pos;
            let (w, h) = framebuffer_size;
            self.framebuffer_size = (w as u32, h as u32);
            match video_mode {
                None => Err(ToggleError::NoVideoMode),
                Some(mode) => {
                    self.is_fullscreen = true;
                    Ok(
                        WindowPlacement {
                            decorated: false,
                            x: 0,
                            y: 0,
                            width: mode.width,
                            height: mode.height,
                            refresh_rate: Some(mode.refresh_rate),
                        },
                    )
                },
            }
        }
    }
}

/// Toggling a windowed window into fullscreen and back puts it where it was,
/// decorated and at the size it had, and leaves the helper windowed again.
pub proof fn lemma_toggle_round_trip(
    t: FullscreenToggle,
    window_pos: (i32, i32),
    framebuffer_size: (i32, i32),
    mode: VideoMode,
    later_pos: (i32, i32),
    later_size: (i32, i32),
    later_mode: Option<VideoMode>,
)
    requires
        !t.spec_is_fullscreen(),
    ensures
        ({
            let (full, first) = t.spec_toggle(true, window_pos, framebuffer_size, Some(mode));
            let (back, second) = full.spec_toggle(true, later_pos, later_size, later_mode);
            &&& first == Ok::<WindowPlacement, ToggleError>(
                WindowPlacement {
                    decorated: false,
                    x: 0,
                    y: 0,
                    width: mode.width,
                    height: mode.height,
                    refresh_rate: Some(mode.refresh_rate),
                },
            )
            &&& full.spec_is_fullscreen()
            &&& second == Ok::<WindowPlacement, ToggleError>(
                WindowPlacement {
                    decorated: true,
                    x: window_pos.0,
                    y: window_pos.1,
                    width: remembered_size(framebuffer_size).0,
                    height: remembered_size(framebuffer_size).1,
                    refresh_rate: None,
                },
            )
            &&& !back.spec_is_fullscreen()
            &&& back.spec_pos() == window_pos
            &&& back.spec_framebuffer_size() == remembered_size(framebuffer_size)
        }),
{
}

/// Without a primary monitor a toggle changes nothing.
pub proof fn lemma_no_monitor_no_change(
    t: FullscreenToggle,
    window_pos: (i32, i32),
    framebuffer_size: (i32, i32),
    video_mode: Option<VideoMode>,
)
    ensures
        t.spec_toggle(false, window_pos, framebuffer_size, video_mode) == (
            t,
            Err::<WindowPlacement, ToggleError>(ToggleError::NoPrimaryMonitor),
        ),
{
}

/// What a toggle remembers: leaving fullscreen keeps the saved position and
/// size; going fullscreen first saves the window's current position and
/// size, whether or not the monitor then gives a video mode, and ends
/// fullscreen exactly when it does.
pub proof fn lemma_toggle_saves_window(
    t: FullscreenToggle,
    window_pos: (i32, i32),
    framebuffer_size: (i32, i32),
    video_mode: Option<VideoMode>,
)
    ensures
        ({
            let (next, placement) = t.spec_toggle(true, window_pos, framebuffer_size, video_mode);
            &&& t.spec_is_fullscreen() ==> {
                &&& next.spec_pos() == t.spec_pos()
                &&& next.spec_framebuffer_size() == t.spec_framebuffer_size()
                &&& !next.spec_is_fullscreen()
                &&& placement is Ok
            }
            &&& !t.spec_is_fullscreen() ==> {
                &&& next.spec_pos() == window_pos
                &&& next.spec_framebuffer_size() == remembered_size(framebuffer_size)
                &&& next.spec_is_fullscreen() == video_mode is Some
                &&& (placement is Ok <==> video_mode is Some)
                &&& video_mode is None ==> placement == Err::<WindowPlacement, ToggleError>(
                    ToggleError::NoVideoMode,
                )
            }
        }),
{
}

} // verus!
