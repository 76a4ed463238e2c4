use xors::board::{BoardLocation, BoardToken};
use xors::player::{location_for_selector, PlayerError, ScriptedPlayer};

#[test]
pub fn test_scripted_player_replays_its_script_in_order() {
    let script = [
        BoardLocation::BottomRight,
        BoardLocation::TopLeft,
        BoardLocation::MiddleCentre,
    ];
    let mut player = ScriptedPlayer::new("Yasmin", BoardToken::Cross, &script);
    assert_eq!(player.id, "Yasmin");
    assert_eq!(player.token, BoardToken::Cross);
    for expected in script.iter() {
        match player.play() {
            Ok((token, location)) => {
                assert_eq!(token, BoardToken::Cross);
                assert_eq!(location, *expected);
            }
            Err(_) => panic!("script ended early"),
        }
    }
    assert_eq!(Err(PlayerError::NoMoreMoves), player.play().map(|_| ()));
    // The cursor never resets: a further call keeps failing.
    assert_eq!(Err(PlayerError::NoMoreMoves), player.play().map(|_| ()));
}

#[test]
pub fn test_new_random_script_is_a_permutation_of_all_nine_locations() {
    let all = [
        BoardLocation::TopLeft,
        BoardLocation::TopCentre,
        BoardLocation::TopRight,
        BoardLocation::MiddleLeft,
        BoardLocation::MiddleCentre,
        BoardLocation::MiddleRight,
        BoardLocation::BottomLeft,
        BoardLocation::BottomCentre,
        BoardLocation::BottomRight,
    ];
    for _ in 0..100 {
        let mut player = ScriptedPlayer::new_random("Robot", BoardToken::Nought);
        let mut drawn: Vec<BoardLocation> = Vec::new();
        loop {
            match player.play() {
                Ok((token, location)) => {
                    assert_eq!(token, BoardToken::Nought);
                    drawn.push(location);
                }
                Err(PlayerError::NoMoreMoves) => break,
                Err(_) => panic!("unexpected error"),
            }
        }
        assert_eq!(drawn.len(), 9);
        for l in all.iter() {
            assert_eq!(1, drawn.iter().filter(|d| *d == l).count());
        }
    }
}

#[test]
pub fn test_new_random_scripts_vary_between_draws() {
    // Across 300 independent shuffles, every location should show up at the
    // front of some script: a fair shuffle misses one with probability below
    // 1e-14, while a shuffle that left its input untouched (or favoured a
    // fixed order) would fail at once.
    let all = [
        BoardLocation::TopLeft,
        BoardLocation::TopCentre,
        BoardLocation::TopRight,
        BoardLocation::MiddleLeft,
        BoardLocation::MiddleCentre,
        BoardLocation::MiddleRight,
        BoardLocation::BottomLeft,
        BoardLocation::BottomCentre,
        BoardLocation::BottomRight,
    ];
    let mut firsts: Vec<BoardLocation> = Vec::new();
    for _ in 0..300 {
        let mut player = ScriptedPlayer::new_random("Robot", BoardToken::Cross);
        if let Ok((_, location)) = player.play() {
            firsts.push(location);
        }
    }
    assert_eq!(firsts.len(), 300);
    for l in all.iter() {
        assert!(firsts.iter().any(|f| f == l));
    }
}

#[test]
pub fn test_location_for_selector_maps_one_to_nine_row_major() {
    let expected = [
        BoardLocation::TopLeft,
        BoardLocation::TopCentre,
        BoardLocation::TopRight,
        BoardLocation::MiddleLeft,
        BoardLocation::MiddleCentre,
        BoardLocation::MiddleRight,
        BoardLocation::BottomLeft,
        BoardLocation::BottomCentre,
        BoardLocation::BottomRight,
    ];
    for (i, l) in expected.iter().enumerate() {
        assert_eq!(Ok(*l), location_for_selector((i + 1) as u32));
    }
    assert_eq!(Err(PlayerError::InvalidLocation), location_for_selector(0));
    assert_eq!(Err(PlayerError::InvalidLocation), location_for_selector(10));
    assert_eq!(Err(PlayerError::InvalidLocation), location_for_selector(u32::MAX));
}
