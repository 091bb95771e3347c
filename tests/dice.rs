use triangle_dice::dice::{
    count_successes, interpret_roll, outcome_from_faces, outcome_from_rolls, render_rolls, roll,
    RollOutcome, RollResult,
};
use triangle_dice::rng::create_rng;

#[test]
fn test_count_successes_zero() {
    let rolls = [false, false, false, false, false, false];
    assert_eq!(count_successes(&rolls), 0);
}

#[test]
fn test_count_successes_some() {
    let rolls = [true, false, true, false, false, true];
    assert_eq!(count_successes(&rolls), 3);
}

#[test]
fn test_count_successes_all() {
    let rolls = [true, true, true, true, true, true];
    assert_eq!(count_successes(&rolls), 6);
}

#[test]
fn test_interpret_roll_failure() {
    let result = interpret_roll(0);
    assert!(matches!(result, RollResult::Failure));
}

#[test]
fn test_interpret_roll_triscendence() {
    let result = interpret_roll(3);
    assert!(matches!(result, RollResult::Triscendence));
}

#[test]
fn test_interpret_roll_success() {
    for count in [1, 2, 4, 5, 6] {
        let result = interpret_roll(count);
        assert!(matches!(result, RollResult::Success(c) if c == count));
    }
}

#[test]
fn test_chaos_failure() {
    let result = RollResult::Failure;
    assert_eq!(result.chaos(), 6);
}

#[test]
fn test_chaos_triscendence() {
    let result = RollResult::Triscendence;
    assert_eq!(result.chaos(), 0);
}

#[test]
fn test_chaos_success() {
    assert_eq!(RollResult::Success(1).chaos(), 5);
    assert_eq!(RollResult::Success(2).chaos(), 4);
    assert_eq!(RollResult::Success(4).chaos(), 2);
    assert_eq!(RollResult::Success(5).chaos(), 1);
    assert_eq!(RollResult::Success(6).chaos(), 0);
}

#[test]
fn test_render_rolls_all_success() {
    let rolls = [true, true, true, true, true, true];
    assert_eq!(render_rolls(&rolls), "▲ ▲ ▲ ▲ ▲ ▲");
}

#[test]
fn test_render_rolls_all_failure() {
    let rolls = [false, false, false, false, false, false];
    assert_eq!(render_rolls(&rolls), "▽ ▽ ▽ ▽ ▽ ▽");
}

#[test]
fn test_render_rolls_mixed() {
    let rolls = [true, false, true, false, true, false];
    assert_eq!(render_rolls(&rolls), "▲ ▽ ▲ ▽ ▲ ▽");
}

#[test]
fn test_roll_outcome_structure() {
    let mut rng = create_rng([0_u8]);
    let outcome = roll(&mut rng);
    // Just verify the outcome has valid structure
    assert!(outcome.chaos <= 6);
    assert!(!outcome.rendered.is_empty());
}

#[test]
fn test_display_result_failure() {
    let result = RollResult::Failure;
    assert_eq!(result.to_display_text(), "❌");
}

#[test]
fn test_display_result_success() {
    let result = RollResult::Success(2);
    assert_eq!(result.to_display_text(), "✅");
}

#[test]
fn test_display_result_triscendence() {
    let result = RollResult::Triscendence;
    assert_eq!(result.to_display_text(), "✨");
}

#[test]
fn test_display_outcome() {
    let outcome = RollOutcome {
        result: RollResult::Success(2),
        rendered: "▲ ▲ ▽ ▽ ▽ ▽".to_string(),
        chaos: 4,
    };
    assert_eq!(outcome.to_display_text(), "✅  ▲ ▲ ▽ ▽ ▽ ▽\n🌀 4");
}

#[test]
fn end_to_end_triscendence_from_fixed_dice() {
    let outcome = outcome_from_rolls(&[true, false, true, false, false, true]);
    assert_eq!(outcome.result, RollResult::Triscendence);
    assert_eq!(outcome.chaos, 0);
    assert_eq!(outcome.rendered, "▲ ▽ ▲ ▽ ▽ ▲");
    assert_eq!(outcome.to_display_text(), "✨  ▲ ▽ ▲ ▽ ▽ ▲\n🌀 0");
}

#[test]
fn outcome_of_all_hits_is_success_six() {
    let outcome = outcome_from_rolls(&[true; 6]);
    assert_eq!(outcome.result, RollResult::Success(6));
    assert_eq!(outcome.chaos, 0);
    assert_eq!(outcome.to_display_text(), "✅  ▲ ▲ ▲ ▲ ▲ ▲\n🌀 0");
}

#[test]
fn outcome_of_no_hits_is_failure() {
    let outcome = outcome_from_rolls(&[false; 6]);
    assert_eq!(outcome.result, RollResult::Failure);
    assert_eq!(outcome.chaos, 6);
    assert_eq!(outcome.to_display_text(), "❌  ▽ ▽ ▽ ▽ ▽ ▽\n🌀 6");
}

#[test]
fn classification_covers_every_count() {
    assert_eq!(interpret_roll(0), RollResult::Failure);
    assert_eq!(interpret_roll(3), RollResult::Triscendence);
    for count in [1, 2, 4, 5, 6] {
        assert_eq!(interpret_roll(count), RollResult::Success(count));
        assert_eq!(interpret_roll(count).chaos(), 6 - count);
    }
}

#[test]
fn classification_is_repeatable() {
    for count in 0..=6 {
        assert_eq!(interpret_roll(count), interpret_roll(count));
        assert_eq!(interpret_roll(count).chaos(), interpret_roll(count).chaos());
    }
}

#[test]
fn result_ignores_the_order_of_the_dice() {
    let a = outcome_from_rolls(&[true, true, false, false, false, false]);
    let b = outcome_from_rolls(&[false, false, false, false, true, true]);
    assert_eq!(a.result, b.result);
    assert_eq!(a.chaos, b.chaos);
    assert_eq!(a.rendered, "▲ ▲ ▽ ▽ ▽ ▽");
    assert_eq!(b.rendered, "▽ ▽ ▽ ▽ ▲ ▲");
}

#[test]
fn rendering_keeps_the_order_of_the_dice() {
    let rolls = [false, true, true, false, true, false];
    assert_eq!(render_rolls(&rolls), "▽ ▲ ▲ ▽ ▲ ▽");
}

#[test]
fn display_writes_chaos_in_decimal() {
    let outcome = RollOutcome {
        result: RollResult::Failure,
        rendered: "x".to_string(),
        chaos: 207,
    };
    assert_eq!(outcome.to_display_text(), "❌  x\n🌀 207");
    let outcome = RollOutcome {
        result: RollResult::Success(1),
        rendered: String::new(),
        chaos: 15,
    };
    assert_eq!(outcome.to_display_text(), "✅  \n🌀 15");
}

#[test]
fn rolled_outcome_is_consistent() {
    let mut rng = create_rng(vec![4_u8, 2_u8]);
    for _ in 0..50 {
        let outcome = roll(&mut rng);
        let chars: Vec<char> = outcome.rendered.chars().collect();
        assert_eq!(chars.len(), 11);
        let hits = chars.iter().filter(|c| **c == '▲').count() as u8;
        assert_eq!(outcome.result, interpret_roll(hits));
        assert_eq!(outcome.chaos, outcome.result.chaos());
    }
}

#[test]
fn faces_of_three_hit_and_keep_their_order() {
    let outcome = outcome_from_faces(&[3, 1, 3, 2, 4, 3]);
    assert_eq!(outcome.result, RollResult::Triscendence);
    assert_eq!(outcome.chaos, 0);
    assert_eq!(outcome.rendered, "▲ ▽ ▲ ▽ ▽ ▲");
}

#[test]
fn six_threes_are_success_six() {
    let outcome = outcome_from_faces(&[3; 6]);
    assert_eq!(outcome.result, RollResult::Success(6));
    assert_eq!(outcome.chaos, 0);
    assert_eq!(outcome.rendered, "▲ ▲ ▲ ▲ ▲ ▲");
}

#[test]
fn faces_other_than_three_all_miss() {
    let outcome = outcome_from_faces(&[1, 2, 4, 4, 2, 1]);
    assert_eq!(outcome.result, RollResult::Failure);
    assert_eq!(outcome.chaos, 6);
    assert_eq!(outcome.rendered, "▽ ▽ ▽ ▽ ▽ ▽");
}

#[test]
fn rolls_from_equal_generators_agree() {
    let mut a = create_rng(vec![9_u8]);
    let mut b = a.clone();
    for _ in 0..20 {
        let x = roll(&mut a);
        let y = roll(&mut b);
        assert_eq!(x.result, y.result);
        assert_eq!(x.rendered, y.rendered);
        assert_eq!(x.chaos, y.chaos);
    }
}
