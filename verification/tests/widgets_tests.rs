use metronomo::widgets::{MetronomePlayer, VolumeBar};

#[test]
fn volume_shades() {
    let idx = |v: u8| VolumeBar::new(v).color_index();
    assert_eq!(idx(0), 0);
    assert_eq!(idx(1), 0);
    assert_eq!(idx(25), 0);
    assert_eq!(idx(26), 1);
    assert_eq!(idx(50), 1);
    assert_eq!(idx(51), 2);
    assert_eq!(idx(76), 3);
    assert_eq!(idx(100), 3);
    assert_eq!(VolumeBar::new(42).volume, 42);
}

#[test]
fn player_marks_current_beat() {
    let p = MetronomePlayer::new(4, 2);
    assert_eq!((p.total_beats, p.current_beat), (4, 2));
    assert_eq!(p.marks(), vec![false, true, false, false]);
    assert_eq!(MetronomePlayer::new(3, 0).marks(), vec![false, false, false]);
    assert_eq!(MetronomePlayer::new(0, 1).marks(), Vec::<bool>::new());
    assert_eq!(MetronomePlayer::new(255, 255).marks().len(), 255);
    assert!(MetronomePlayer::new(255, 255).marks()[254]);
}
