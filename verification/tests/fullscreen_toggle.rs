use shader_toy_slang::app::fullscreen_toggle::{
    FullscreenToggle, ToggleError, VideoMode, WindowPlacement,
};

const MODE: VideoMode = VideoMode { width: 1920, height: 1080, refresh_rate: 60 };

#[test]
fn toggle_round_trip_restores_the_window() {
    let mut toggle = FullscreenToggle::new((10, 20), (640, 480));
    assert_eq!(
        toggle.toggle_fullscreen(true, (30, 40), (800, 600), Some(MODE)),
        Ok(WindowPlacement {
            decorated: false,
            x: 0,
            y: 0,
            width: 1920,
            height: 1080,
            refresh_rate: Some(60),
        })
    );
    assert_eq!(
        toggle.toggle_fullscreen(true, (0, 0), (1920, 1080), Some(MODE)),
        Ok(WindowPlacement {
            decorated: true,
            x: 30,
            y: 40,
            width: 800,
            height: 600,
            refresh_rate: None,
        })
    );
}

#[test]
fn toggle_without_monitor_changes_nothing() {
    let mut toggle = FullscreenToggle::new((10, 20), (640, 480));
    assert_eq!(
        toggle.toggle_fullscreen(false, (30, 40), (800, 600), Some(MODE)),
        Err(ToggleError::NoPrimaryMonitor)
    );
    assert_eq!(toggle, FullscreenToggle::new((10, 20), (640, 480)));
}

#[test]
fn toggle_without_video_mode_remembers_the_window_and_stays_windowed() {
    let mut toggle = FullscreenToggle::new((10, 20), (640, 480));
    assert_eq!(toggle.toggle_fullscreen(true, (30, 40), (800, 600), None), Err(ToggleError::NoVideoMode));
    assert_eq!(toggle, FullscreenToggle::new((30, 40), (800, 600)));
}
