use vstd::prelude::*;
use crate::rng::{draw_d4, TriangleAgencyRng};

verus! {

/// Number of dice thrown in one roll.
pub const DICE_COUNT: u8 = 6;

/// How a roll turned out, by the number of dice that hit.
#[derive(Debug, Clone, Copy, PartialEq, Eq, Structural)]
pub enum RollResult {
    /// How many dice hit (neither none nor exactly three).
    Success(u8),
    /// No die hit.
    Failure,
    /// Exactly three dice hit.
    Triscendence,
}

/// Number of hits among the dice.
pub open spec fn hit_count(rolls: Seq<bool>) -> nat
    decreases rolls.len(),
{
    if rolls.len() == 0 {
        0
    } else {
        hit_count(rolls.drop_last()) + if rolls.last() {
            1nat
        } else {
            0nat
        }
    }
}

/// The result that a number of hits stands for.
pub open spec fn classify(count: u8) -> RollResult {
    if count == 0 {
        RollResult::Failure
    } else if count == 3 {
        RollResult::Triscendence
    } else {
        RollResult::Success(count)
    }
}

impl RollResult {
    /// The count of a `Success` is at most the number of dice.
    pub open spec fn has_valid_count(self) -> bool {
        match self {
            RollResult::Success(count) => count <= DICE_COUNT,
            _ => true,
        }
    }

    /// Chaos of a result: every die for a failure, the dice that missed
    /// for a success, none for a triscendence.
    pub open spec fn chaos_of(self) -> int {
        match self {
            RollResult::Failure => DICE_COUNT as int,
            RollResult::Success(count) => DICE_COUNT - count,
            RollResult::Triscendence => 0,
        }
    }

    /// The glyph that shows this kind of result.
    pub open spec fn glyph(self) -> Seq<char> {
        match self {
            RollResult::Success(_) => seq!['\u{2705}'],
            RollResult::Failure => seq!['\u{274C}'],
            RollResult::Triscendence => seq!['\u{2728}'],
        }
    }

    /// Chaos produced by this result.
    pub fn chaos(&self) -> (r: u8)
        requires
            self.has_valid_count(),
        ensures
            r == self.chaos_of(),
    {
        match self {
            RollResult::Failure => DICE_COUNT,
            RollResult::Success(count) => DICE_COUNT - *count,
            RollResult::Triscendence => 0,
        }
    }

    /// The glyph of this result as text.
    pub fn to_display_text(&self) -> (r: String)
        ensures
            r@ == self.glyph(),
    {
        let r = match self {
            RollResult::Success(_) => String::from_str("\u{2705}"),
            RollResult::Failure => String::from_str("\u{274C}"),
            RollResult::Triscendence => String::from_str("\u{2728}"),
        };
        proof {
            reveal_strlit("\u{2705}");
            reveal_strlit("\u{274C}");
            reveal_strlit("\u{2728}");
            assert(r@ =~= self.glyph());
        }
        r
    }
}

/// The glyph of one die: a filled triangle for a hit, a hollow one for a miss.
pub open spec fn die_glyph(hit: bool) -> char {
    if hit {
        '\u{25B2}'
    } else {
        '\u{25BD}'
    }
}

/// The dice's glyphs in order, with one space between two neighbours.
pub open spec fn render(rolls: Seq<bool>) -> Seq<char>
    decreases rolls.len(),
{
    if rolls.len() == 0 {
        seq![]
    } else if rolls.len() == 1 {
        seq![die_glyph(rolls[0])]
    } else {
        render(rolls.drop_last()) + seq![' ', die_glyph(rolls.last())]
    }
}

/// Count how many dice hit.
pub fn count_successes(rolls: &[bool; 6]) -> (r: u8)
    ensures
        r == hit_count(rolls@),
{
    let mut count: u8 = 0;
    let mut i: usize = 0;
    while i < 6
        invariant
            i <= 6,
            count == hit_count(rolls@.take(i as int)),
            count <= i,
        decreases 6 - i,
    {
        proof {
            assert(rolls@.take(i + 1).drop_last() =~= rolls@.take(i as int));
        }
        if rolls[i] {
            count = count + 1;
        }
        i = i + 1;
    }
    proof {
        assert(rolls@.take(6) =~= rolls@);
    }
    count
}

/// Interpret the number of hits as a result.
pub fn interpret_roll(count: u8) -> (r: RollResult)
    ensures
        r == classify(count),
{
    match count {
        0 => RollResult::Failure,
        3 => RollResult::Triscendence,
        _ => RollResult::Success(count),
    }
}

/// Append the glyph of one die.
fn push_die_glyph(text: &mut String, hit: bool)
    ensures
        final(text)@ == old(text)@.push(die_glyph(hit)),
{
    if hit {
        text.append("\u{25B2}");
    } else {
        text.append("\u{25BD}");
    }
    proof {
        reveal_strlit("\u{25B2}");
        reveal_strlit("\u{25BD}");
        assert(text@ =~= old(text)@.push(die_glyph(hit)));
    }
}

/// Render the dice as triangles, in the order they were thrown.
pub fn render_rolls(rolls: &[bool; 6]) -> (r: String)
    ensures
        r@ == render(rolls@),
{
    let mut text = String::new();
    let mut i: usize = 0;
    while i < 6
        invariant
            i <= 6,
            text@ == render(rolls@.take(i as int)),
        decreases 6 - i,
    {
        let ghost before = text@;
        if i > 0 {
            text.append(" ");
            proof {
                reveal_strlit(" ");
            }
        }
        push_die_glyph(&mut text, rolls[i]);
        proof {
            let s = rolls@.take(i + 1);
            assert(s.drop_last() =~= rolls@.take(i as int));
            if i == 0 {
                assert(text@ =~= render(s));
            } else {
                assert(text@ =~= before + seq![' ', die_glyph(s.last())]);
            }
        }
        i = i + 1;
    }
    proof {
        assert(rolls@.take(6) =~= rolls@);
    }
    text
}

/// Full outcome of a roll: the result, the rendered dice, and the chaos.
#[derive(Debug)]
pub struct RollOutcome {
    pub result: RollResult,
    pub rendered: String,
    pub chaos: u8,
}

/// The character of a decimal digit.
pub open spec fn digit_char(d: nat) -> char {
    seq!['0', '1', '2', '3', '4', '5', '6', '7', '8', '9'][d as int]
}

/// The decimal digits of a number, most significant first, without leading zeros.
pub open spec fn decimal(n: nat) -> Seq<char>
    decreases n,
{
    if n < 10 {
        seq![digit_char(n)]
    } else {
        decimal(n / 10).push(digit_char(n % 10))
    }
}

impl RollOutcome {
    /// The outcome stands for these dice: its result classifies their hits,
    /// its rendering shows them in order, and its chaos is that of its result.
    pub open spec fn describes(self, rolls: Seq<bool>) -> bool {
        &&& self.result == classify(hit_count(rolls) as u8)
        &&& self.rendered@ == render(rolls)
        &&& self.chaos == self.result.chaos_of()
    }

    /// Two lines: the result's glyph, two spaces and the dice; then a swirl,
    /// a space and the chaos in decimal.
    pub open spec fn display(self) -> Seq<char> {
        self.result.glyph() + seq![' ', ' '] + self.rendered@ + seq!['\n', '\u{1F300}', ' ']
            + decimal(self.chaos as nat)
    }

    /// The outcome as the two lines of text that are shown to players.
    pub fn to_display_text(&self) -> (r: String)
        ensures
            r@ == self.display(),
    {
        let mut text = self.result.to_display_text();
        text.append("  ");
        text.append(self.rendered.as_str());
        text.append("\n\u{1F300} ");
        push_decimal(&mut text, self.chaos);
        proof {
            reveal_strlit("  ");
            reveal_strlit("\n\u{1F300} ");
            assert(text@ =~= self.display());
        }
        text
    }
}

/// Append the character of one decimal digit.
fn push_digit(text: &mut String, d: u8)
    requires
        d < 10,
    ensures
        final(text)@ == old(text)@.push(digit_char(d as nat)),
{
    let digits = "0123456789";
    proof {
        reveal_strlit("0123456789");
    }
    let c = digits.substring_char(d as usize, d as usize + 1);
    text.append(c);
    assert(text@ =~= old(text)@.push(digit_char(d as nat)));
}

/// Append a number in decimal.
fn push_decimal(text: &mut String, n: u8)
    ensures
        final(text)@ == old(text)@ + decimal(n as nat),
{
    if n >= 100 {
        push_digit(text, n / 100);
    }
    if n >= 10 {
        push_digit(text, (n / 10) % 10);
    }
    push_digit(text, n % 10);
    proof {
        let m = n as nat;
        if m >= 100 {
            assert(decimal(m / 10) == decimal(m / 100).push(digit_char((m / 10) % 10)));
            assert(decimal(m / 100) == seq![digit_char(m / 100)]);
        } else if m >= 10 {
            assert(decimal(m / 10) == seq![digit_char(m / 10)]);
        }
        assert(text@ =~= old(text)@ + decimal(m));
    }
}

/// The outcome of a roll whose dice came out as given.
pub fn outcome_from_rolls(rolls: &[bool; 6]) -> (r: RollOutcome)
    ensures
        r.describes(rolls@),
{
    let count = count_successes(rolls);
    proof {
        lemma_hit_count_bounded(rolls@);
    }
    let result = interpret_roll(count);
    let rendered = render_rolls(rolls);
    let chaos = result.chaos();
    RollOutcome { result, rendered, chaos }
}

/// The face of a four-sided die that counts as a hit.
pub const HIT_FACE: u8 = 3;

/// Each face that a four-sided die can show is one of 1, 2, 3 and 4.
pub open spec fn are_d4_faces(faces: Seq<u8>) -> bool {
    forall|i: int| 0 <= i < faces.len() ==> 1 <= #[trigger] faces[i] <= 4
}

/// Die by die, in order: a hit exactly when the face is the hit face.
pub open spec fn hits_of(faces: Seq<u8>) -> Seq<bool> {
    faces.map_values(|f: u8| f == HIT_FACE)
}

/// Mark each die that shows the hit face.
fn hits_from_faces(faces: &[u8; 6]) -> (r: [bool; 6])
    ensures
        r@ == hits_of(faces@),
{
    let mut rolls = [false; 6];
    let mut i: usize = 0;
    while i < 6
        invariant
            i <= 6,
            forall|j: int| 0 <= j < i ==> #[trigger] rolls@[j] == (faces@[j] == HIT_FACE),
        decreases 6 - i,
    {
        rolls[i] = faces[i] == HIT_FACE;
        i = i + 1;
    }
    assert(rolls@ =~= hits_of(faces@));
    rolls
}

/// The outcome of a roll whose dice showed the given faces, in order.
pub fn outcome_from_faces(faces: &[u8; 6]) -> (r: RollOutcome)
    ensures
        r.describes(hits_of(faces@)),
{
    let rolls = hits_from_faces(faces);
    outcome_from_rolls(&rolls)
}

/// Throw six four-sided dice, in order.
fn roll_6d4(rng: &mut TriangleAgencyRng) -> (r: [u8; 6])
    ensures
        are_d4_faces(r@),
{
    let mut faces = [1u8; 6];
    let mut i: usize = 0;
    while i < 6
        invariant
            i <= 6,
            are_d4_faces(faces@),
        decreases 6 - i,
    {
        faces[i] = draw_d4(rng);
        i = i + 1;
    }
    faces
}

/// A typical Triangle Agency roll: six dice drawn from the generator, a die
/// hitting when it shows the hit face, classified, rendered in the order
/// they were thrown, with their chaos.
pub fn roll(rng: &mut TriangleAgencyRng) -> (r: RollOutcome)
    ensures
        exists|faces: Seq<u8>|
            faces.len() == 6 && are_d4_faces(faces) && #[trigger] r.describes(hits_of(faces)),
{
    let faces = roll_6d4(rng);
    let r = outcome_from_faces(&faces);
    assert(r.describes(hits_of(faces@)));
    r
}

/// The number of hits never exceeds the number of dice.
pub proof fn lemma_hit_count_bounded(rolls: Seq<bool>)
    ensures
        hit_count(rolls) <= rolls.len(),
    decreases rolls.len(),
{
    if rolls.len() > 0 {
        lemma_hit_count_bounded(rolls.drop_last());
    }
}

/// Every number of hits that six dice can show gets exactly one result:
/// none is a failure, three is a triscendence, and any other count is a
/// success carrying that count.
pub proof fn lemma_classification_total(count: u8)
    requires
        count <= DICE_COUNT,
    ensures
        (classify(count) == RollResult::Failure) <==> count == 0,
        (classify(count) == RollResult::Triscendence) <==> count == 3,
        (classify(count) == RollResult::Success(count)) <==> (count != 0 && count != 3),
        classify(count) == RollResult::Failure || classify(count) == RollResult::Triscendence
            || classify(count) == RollResult::Success(count),
        classify(count).has_valid_count(),
{
}

/// The chaos of a roll by its number of hits: all six dice for a failure,
/// none for a triscendence, and the dice that missed for a success.
pub proof fn lemma_chaos_by_count(count: u8)
    requires
        count <= DICE_COUNT,
    ensures
        count == 0 ==> classify(count).chaos_of() == 6,
        count == 3 ==> classify(count).chaos_of() == 0,
        count != 0 && count != 3 ==> classify(count).chaos_of() == 6 - count,
        0 <= classify(count).chaos_of() <= 6,
{
}

/// The rendering keeps the dice in order: the glyph of die `i` stands at
/// position `2 * i`, and a single space stands between two neighbours.
pub proof fn lemma_render_layout(rolls: Seq<bool>)
    requires
        rolls.len() > 0,
    ensures
        render(rolls).len() == 2 * rolls.len() - 1,
        forall|i: int| 0 <= i < rolls.len() ==> #[trigger] render(rolls)[2 * i] == die_glyph(rolls[i]),
        forall|i: int| 0 <= i < rolls.len() - 1 ==> #[trigger] render(rolls)[2 * i + 1] == ' ',
    decreases rolls.len(),
{
    if rolls.len() > 1 {
        let front = rolls.drop_last();
        lemma_render_layout(front);
        assert forall|i: int| 0 <= i < rolls.len() implies #[trigger] render(rolls)[2 * i]
            == die_glyph(rolls[i]) by {
            if i < front.len() {
                assert(render(rolls)[2 * i] == render(front)[2 * i]);
            }
        }
        assert forall|i: int| 0 <= i < rolls.len() - 1 implies #[trigger] render(rolls)[2 * i + 1]
            == ' ' by {
            if i < front.len() - 1 {
                assert(render(rolls)[2 * i + 1] == render(front)[2 * i + 1]);
            }
        }
    }
}

/// The faces decide the dice one by one, in order: die `i` hits exactly
/// when face `i` is the hit face, and its glyph stands at position `2 * i`
/// of the rendering.
pub proof fn lemma_faces_decide_dice(faces: Seq<u8>)
    requires
        faces.len() > 0,
    ensures
        hits_of(faces).len() == faces.len(),
        forall|i: int| 0 <= i < faces.len() ==> (#[trigger] hits_of(faces)[i] <==> faces[i] == HIT_FACE),
        forall|i: int|
            0 <= i < faces.len() ==> #[trigger] render(hits_of(faces))[2 * i] == die_glyph(
                faces[i] == HIT_FACE,
            ),
{
    lemma_render_layout(hits_of(faces));
}

/// Result and chaos are functions of the number of hits alone: two outcomes
/// of dice with as many hits agree on both, whatever the order of the dice.
pub proof fn lemma_outcome_depends_on_count(
    a: RollOutcome,
    rolls_a: Seq<bool>,
    b: RollOutcome,
    rolls_b: Seq<bool>,
)
    requires
        a.describes(rolls_a),
        b.describes(rolls_b),
        hit_count(rolls_a) == hit_count(rolls_b),
    ensures
        a.result == b.result,
        a.chaos == b.chaos,
{
}

} // verus!
