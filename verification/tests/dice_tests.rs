use dice_challenge::dice::{
    dice_to_char, dice_to_display, is_all_same, roll_dice, roll_multiple_dice,
};
use dice_challenge::display::{format_elapsed, format_trial, render_frame};
use dice_challenge::odds::match_odds_of;

#[test]
fn test_roll_dice_range() {
    for _ in 0..100 {
        let value = roll_dice();
        assert!(value >= 1 && value <= 6);
    }
}

#[test]
fn test_dice_to_char() {
    assert_eq!(dice_to_char(1), '⚀');
    assert_eq!(dice_to_char(6), '⚅');
}

#[test]
fn test_is_all_same() {
    assert!(is_all_same(&[1, 1, 1]));
    assert!(!is_all_same(&[1, 2, 1]));
    assert!(!is_all_same(&[]));
}

#[test]
fn every_face_has_its_own_glyph() {
    let glyphs: Vec<char> = (1u8..=6).map(dice_to_char).collect();
    assert_eq!(glyphs, vec!['⚀', '⚁', '⚂', '⚃', '⚄', '⚅']);
}

#[test]
fn single_die_is_a_match_whatever_it_shows() {
    for value in 1u8..=6 {
        assert!(is_all_same(&[value]));
    }
}

#[test]
fn match_does_not_depend_on_order() {
    assert!(!is_all_same(&[2, 2, 5]));
    assert!(!is_all_same(&[5, 2, 2]));
    assert!(!is_all_same(&[2, 5, 2]));
    assert!(is_all_same(&[4, 4, 4, 4]));
}

#[test]
fn roll_multiple_dice_gives_count_faces() {
    for count in 0usize..20 {
        let dice = roll_multiple_dice(count);
        assert_eq!(dice.len(), count);
        assert!(dice.iter().all(|&d| (1..=6).contains(&d)));
    }
}

#[test]
fn rolls_are_not_all_one_face() {
    let dice = roll_multiple_dice(400);
    for face in 1u8..=6 {
        assert!(dice.contains(&face));
    }
}

#[test]
fn display_joins_glyphs_with_spaces() {
    assert_eq!(dice_to_display(&[3, 5], false), "⚂ ⚄");
    assert_eq!(dice_to_display(&[1, 2, 6], false), "⚀ ⚁ ⚅");
    assert_eq!(dice_to_display(&[2], false), "⚁");
    assert_eq!(dice_to_display(&[], false), "");
}

#[test]
fn display_marks_a_match() {
    assert_eq!(dice_to_display(&[4, 4], true), "⚃ ⚃ ★");
    assert_eq!(dice_to_display(&[], true), " ★");
}

#[test]
fn elapsed_is_minutes_and_seconds() {
    assert_eq!(format_elapsed(0), "00:00");
    assert_eq!(format_elapsed(9), "00:09");
    assert_eq!(format_elapsed(75), "01:15");
    assert_eq!(format_elapsed(3599), "59:59");
    assert_eq!(format_elapsed(3600), "60:00");
    assert_eq!(format_elapsed(6000), "100:00");
    assert_eq!(format_elapsed(u64::MAX), format!("{:02}:{:02}", u64::MAX / 60, u64::MAX % 60));
}

#[test]
fn trial_is_padded_to_fifteen_digits() {
    assert_eq!(format_trial(0), "000000000000000");
    assert_eq!(format_trial(7), "000000000000007");
    assert_eq!(format_trial(1234567890), "000001234567890");
    assert_eq!(format_trial(999_999_999_999_999), "999999999999999");
    assert_eq!(format_trial(u64::MAX), "18446744073709551615");
}

#[test]
fn frame_of_a_miss_is_drawn_over() {
    let frame = render_frame(&[3, 5], 1, 0);
    assert_eq!(frame.dice_line, "⚂ ⚄");
    assert_eq!(frame.stats_lead, "number of trials: 000000000000001 / ETA: 00:00 / Prob: ");
    assert!(frame.rewind);
}

#[test]
fn frame_of_a_match_stays() {
    let frame = render_frame(&[4, 4], 12, 61);
    assert_eq!(frame.dice_line, "⚃ ⚃ ★");
    assert_eq!(frame.stats_lead, "number of trials: 000000000000012 / ETA: 01:01 / Prob: ");
    assert!(!frame.rewind);
}

#[test]
fn odds_are_powers_of_six() {
    assert_eq!(match_odds_of(0), Some(1));
    assert_eq!(match_odds_of(1), Some(1));
    assert_eq!(match_odds_of(2), Some(6));
    assert_eq!(match_odds_of(3), Some(36));
    assert_eq!(match_odds_of(5), Some(1296));
    assert_eq!(match_odds_of(25), Some(4_738_381_338_321_616_896));
}

#[test]
fn odds_beyond_sixty_four_bits_are_not_given() {
    assert_eq!(match_odds_of(26), None);
    assert_eq!(match_odds_of(1000), None);
}

#[test]
fn first_match_is_less_likely_at_each_later_trial() {
    let d = match_odds_of(3).unwrap() as u128;
    let miss = d - 1;
    for k in 1u32..10 {
        let num = miss.pow(k - 1);
        let den = d.pow(k);
        let next_num = miss.pow(k);
        let next_den = d.pow(k + 1);
        assert!(next_num * den < num * next_den);
    }
}
