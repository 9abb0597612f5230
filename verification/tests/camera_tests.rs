use dungeon_dice::camera::{
    camera_state_handler, CameraSceneParams, CameraState, ORBIT_RATE_URAD_PER_MS,
};
use dungeon_dice::mathx::Vec3Fx;

#[test]
fn default_is_player_controlled() {
    let c = CameraState::default();
    assert!(c.scene_params.is_none());
    assert_eq!(c.elapsed_time_ms, 0);
}

/// A 2-second takeover advanced by 0.5 s four times returns to player
/// control exactly after the fourth advance.
#[test]
fn takeover_ends_exactly_at_duration() {
    let focus = Vec3Fx { x: 1000, y: 0, z: -2000 };
    let mut c = CameraState {
        scene_params: Some(CameraSceneParams {
            target_position: focus,
            pos_offset: Vec3Fx { x: 0, y: 1200, z: 0 },
            duration_ms: 2_000,
        }),
        elapsed_time_ms: 0,
    };

    for i in 1..=3u64 {
        let step = camera_state_handler(&mut c, 500).unwrap();
        assert_eq!(step.focus, focus);
        assert_eq!(step.angle_urad, ORBIT_RATE_URAD_PER_MS * 500);
        assert!(c.scene_params.is_some());
        assert_eq!(c.elapsed_time_ms, 500 * i);
    }

    let step = camera_state_handler(&mut c, 500).unwrap();
    assert_eq!(step.focus, focus);
    assert!(c.scene_params.is_none());
    assert_eq!(c.elapsed_time_ms, 0);

    // once back under player control, ticking does nothing
    assert!(camera_state_handler(&mut c, 500).is_none());
    assert_eq!(c.elapsed_time_ms, 0);
}

#[test]
fn orbit_angle_follows_frame_time() {
    let mut c = CameraState {
        scene_params: Some(CameraSceneParams {
            target_position: Vec3Fx { x: 0, y: 0, z: 0 },
            pos_offset: Vec3Fx { x: 0, y: 1200, z: 0 },
            duration_ms: 10_000,
        }),
        elapsed_time_ms: 0,
    };
    let step = camera_state_handler(&mut c, 16).unwrap();
    // 0.6 rad/s for 16 ms is 9600 micro-radians
    assert_eq!(step.angle_urad, 9_600);
}

#[test]
fn overlong_frame_still_ends_takeover() {
    let mut c = CameraState {
        scene_params: Some(CameraSceneParams {
            target_position: Vec3Fx { x: 5, y: 6, z: 7 },
            pos_offset: Vec3Fx { x: 0, y: 1200, z: 0 },
            duration_ms: 2_000,
        }),
        elapsed_time_ms: 1_999,
    };
    let step = camera_state_handler(&mut c, 5_000);
    assert!(step.is_some());
    assert!(c.scene_params.is_none());
    assert_eq!(c.elapsed_time_ms, 0);
}

#[test]
fn takeover_active_mirrors_scene_presence() {
    let mut c = CameraState::default();
    assert!(!c.takeover_active());
    c.scene_params = Some(CameraSceneParams {
        target_position: Vec3Fx { x: 0, y: 0, z: 0 },
        pos_offset: Vec3Fx { x: 0, y: 1200, z: 0 },
        duration_ms: 2_000,
    });
    assert!(c.takeover_active());
}
