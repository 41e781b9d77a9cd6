//! The start of a move: what the attacker's status does to it, and which side
//! moves first.

use vstd::prelude::*;
use crate::checks::trunc_div;
use crate::choices::{Choice, Choices};
use crate::choices::VolatileStatus;
use crate::generate::{chance_to_wake_up, spec_chance_to_wake_up};
use crate::instruction::{
    ChangeStatusInstruction, DamageInstruction, DecrementRestTurnsInstruction, Instruction,
    Percentage, SetSleepTurnsInstruction, StateInstructions, spec_extends,
};
use crate::state::{
    Pokemon, PokemonBoostableStat, PokemonIndex, PokemonStatus, PokemonVolatileStatus, Side,
    SideReference, State,
};

verus! {

/// Whether `vs` is one of the protecting volatile statuses.
pub open spec fn spec_is_protect_volatile(vs: PokemonVolatileStatus) -> bool {
    vs == PokemonVolatileStatus::PROTECT || vs == PokemonVolatileStatus::BANEFULBUNKER
        || vs == PokemonVolatileStatus::BURNINGBULWARK || vs == PokemonVolatileStatus::SPIKYSHIELD
        || vs == PokemonVolatileStatus::SILKTRAP || vs == PokemonVolatileStatus::ENDURE
}

fn is_protect_volatile(vs: PokemonVolatileStatus) -> (r: bool)
    ensures r == spec_is_protect_volatile(vs),
{
    vs == PokemonVolatileStatus::PROTECT || vs == PokemonVolatileStatus::BANEFULBUNKER
        || vs == PokemonVolatileStatus::BURNINGBULWARK || vs == PokemonVolatileStatus::SPIKYSHIELD
        || vs == PokemonVolatileStatus::SILKTRAP || vs == PokemonVolatileStatus::ENDURE
}

/// Floor division by a positive divisor, as the engine's float arithmetic rounds.
fn floor_div(a: i64, b: i64) -> (r: i64)
    requires
        1 <= b <= 0x1000_0000_0000,
        -0x1000_0000_0000 <= a <= 0x1000_0000_0000,
    ensures
        r == a / b,
{
    if a >= 0 {
        a / b
    } else {
        let q = (-a + b - 1) / b;
        proof {
            assert(-q == a / b) by (nonlinear_arith)
                requires q as int == (-(a as int) + (b as int) - 1) / (b as int), a < 0, b >= 1;
        }
        -q
    }
}

/// The damage of a Pokemon hitting itself in confusion: a 40 base power
/// physical hit of its own attack on its own defense, halved by a burn, and no
/// more than its hit points. The quotient is rounded down whatever the signs;
/// a zero defense makes the hit as large as an `i16` allows when the attack
/// term is positive, as small as it allows when it is negative, and nothing
/// when it is zero.
#[verifier::opaque]
pub open spec fn spec_confusion_damage(level: i8, attack: int, defense: int, burned: bool, hp: i16) -> i16 {
    let base = ((2 * level) / 5 + 2) * 40;
    let num = base * attack;
    let dmg: int = if defense == 0 {
        if num > 0 { i16::MAX as int } else if num < 0 { i16::MIN as int } else { 0 }
    } else {
        let q = if defense > 0 { num / (defense * 50) } else { (-num) / (-defense * 50) };
        let raw = q + 2;
        let d = if burned { trunc_div(raw, 2) } else { raw };
        if d > i16::MAX { i16::MAX as int } else if d < i16::MIN { i16::MIN as int } else { d }
    };
    (if dmg < hp { dmg } else { hp as int }) as i16
}

fn confusion_damage(level: i8, attack: i16, defense: i16, burned: bool, hp: i16) -> (r: i16)
    ensures
        r == spec_confusion_damage(level, attack as int, defense as int, burned, hp),
{
    reveal(spec_confusion_damage);
    let l: i64 = level as i64;
    let base: i64 = (floor_div(2 * l, 5) + 2) * 40;
    proof {
        assert(-0x1_0000 <= base <= 0x1_0000);
        assert(-0x1_0000_0000 <= base * attack <= 0x1_0000_0000) by (nonlinear_arith)
            requires -0x1_0000 <= base <= 0x1_0000, -0x8000 <= attack <= 0x7fff;
    }
    let prod: i64 = base * attack as i64;
    let dmg: i64 = if defense == 0 {
        if prod > 0 { 32767 } else if prod < 0 { -32768 } else { 0 }
    } else {
        let (num, den): (i64, i64) = if defense > 0 {
            (prod, defense as i64 * 50)
        } else {
            (-prod, -(defense as i64) * 50)
        };
        proof {
            assert(50 <= den <= 0x8000 * 50);
        }
        let q: i64 = floor_div(num, den);
        proof {
            assert(-0x1_0000_0000 <= q <= 0x1_0000_0000) by (nonlinear_arith)
                requires q == num / den, den >= 50, -0x1_0000_0000 <= num <= 0x1_0000_0000;
        }
        let raw: i64 = q + 2;
        let d: i64 = if burned {
            if raw >= 0 { raw / 2 } else { -((-raw) / 2) }
        } else {
            raw
        };
        if d > 32767 { 32767 } else if d < -32768 { -32768 } else { d }
    };
    if dmg < hp as i64 { dmg as i16 } else { hp }
}

/// One branch of the turn, as its chance and its instructions.
pub open spec fn spec_branch(s: StateInstructions) -> (Percentage, Seq<Instruction>) {
    (s.percentage, s.instruction_list@)
}

/// `after` is `before` with the branches `added` put after it, in order.
pub open spec fn spec_branches_added(
    before: Seq<StateInstructions>,
    after: Seq<StateInstructions>,
    added: Seq<(Percentage, Seq<Instruction>)>,
) -> bool {
    &&& after.len() == before.len() + added.len()
    &&& forall|k: int| 0 <= k < before.len() ==> #[trigger] after[k] == before[k]
    &&& forall|k: int| 0 <= k < added.len() ==> spec_branch(after[before.len() + k]) == #[trigger] added[k]
}

proof fn lemma_branches_added_trans(
    a: Seq<StateInstructions>,
    b: Seq<StateInstructions>,
    c: Seq<StateInstructions>,
    x: Seq<(Percentage, Seq<Instruction>)>,
    y: Seq<(Percentage, Seq<Instruction>)>,
)
    requires
        spec_branches_added(a, b, x),
        spec_branches_added(b, c, y),
    ensures
        spec_branches_added(a, c, x + y),
{
    assert forall|k: int| 0 <= k < (x + y).len() implies spec_branch(c[a.len() + k]) == #[trigger] (x + y)[k] by {
        if k < x.len() {
            assert(c[a.len() + k] == b[a.len() + k]);
            assert(x[k] == (x + y)[k]);
        } else {
            assert(y[k - x.len()] == (x + y)[k]);
            assert(b.len() + (k - x.len()) == a.len() + k);
        }
    }
}

/// What a sleeping attacker `a` at party index `idx` of `r` does to the
/// branch `(p, l)` as it tries to use `move_id`: the branch it acts in, the
/// branches in which it does not act, and the attacker afterwards.
#[verifier::opaque]
pub open spec fn spec_sleep_stage(
    a: Pokemon,
    r: SideReference,
    idx: PokemonIndex,
    move_id: Choices,
    p: Percentage,
    l: Seq<Instruction>,
) -> (Percentage, Seq<Instruction>, Seq<(Percentage, Seq<Instruction>)>, Pokemon) {
    let st = a.sleep_turns;
    let (n, d) = spec_chance_to_wake_up(st);
    let next: i8 = if st < 127 { (st + 1) as i8 } else { st };
    let wake_status = Instruction::ChangeStatus(ChangeStatusInstruction {
        side_ref: r, pokemon_index: idx, old_status: PokemonStatus::SLEEP, new_status: PokemonStatus::NONE });
    let wake_turns = Instruction::SetSleepTurns(SetSleepTurnsInstruction {
        side_ref: r, pokemon_index: idx, new_turns: 0, previous_turns: st });
    let stay = Instruction::SetSleepTurns(SetSleepTurnsInstruction {
        side_ref: r, pokemon_index: idx, new_turns: next, previous_turns: st });
    let awake = Pokemon { status: PokemonStatus::NONE, sleep_turns: 0, ..a };
    if a.rest_turns == 0 {
        if n == d {
            (p, l.push(wake_status).push(wake_turns), seq![], awake)
        } else if n == 0 {
            if move_id == Choices::SLEEPTALK {
                (p, l.push(stay), seq![], a)
            } else {
                (p.spec_scaled(0, 1), l, seq![(p, l.push(stay))], a)
            }
        } else if move_id == Choices::SLEEPTALK {
            (p.spec_scaled((d - n) as u64, d), l.push(stay),
                seq![(p.spec_scaled(n, d), l.push(wake_status).push(wake_turns))],
                Pokemon { sleep_turns: next, ..a })
        } else {
            (p.spec_scaled(n, d), l.push(wake_status).push(wake_turns),
                seq![(p.spec_scaled((d - n) as u64, d), l.push(stay))], awake)
        }
    } else if a.rest_turns == 1 {
        (p, l.push(wake_status).push(Instruction::DecrementRestTurns(DecrementRestTurnsInstruction { side_ref: r })),
            seq![], Pokemon { status: PokemonStatus::NONE, rest_turns: 0, ..a })
    } else {
        (p, l.push(Instruction::DecrementRestTurns(DecrementRestTurnsInstruction { side_ref: r })),
            seq![], Pokemon { rest_turns: (a.rest_turns - 1) as i8, ..a })
    }
}

/// What the status of attacker `a` does to the branch `(p, l)`: paralysis
/// stops it a quarter of the time, a freeze holds it four times in five and
/// otherwise thaws, and sleep goes by `spec_sleep_stage`.
#[verifier::opaque]
pub open spec fn spec_status_stage(
    a: Pokemon,
    r: SideReference,
    idx: PokemonIndex,
    move_id: Choices,
    p: Percentage,
    l: Seq<Instruction>,
) -> (Percentage, Seq<Instruction>, Seq<(Percentage, Seq<Instruction>)>, Pokemon) {
    if a.status == PokemonStatus::SLEEP {
        spec_sleep_stage(a, r, idx, move_id, p, l)
    } else if a.status == PokemonStatus::PARALYZE {
        (p.spec_scaled(3, 4), l, seq![(p.spec_scaled(1, 4), l)], a)
    } else if a.status == PokemonStatus::FREEZE {
        (p.spec_scaled(1, 5),
            l.push(Instruction::ChangeStatus(ChangeStatusInstruction {
                side_ref: r, pokemon_index: idx, old_status: PokemonStatus::FREEZE, new_status: PokemonStatus::NONE })),
            seq![(p.spec_scaled(4, 5), l)],
            Pokemon { status: PokemonStatus::NONE, ..a })
    } else {
        (p, l, seq![], a)
    }
}

/// A confused attacker hits itself a third of the time, with the stats of
/// `side` as the turn began and the level, status and hit points of `now`.
#[verifier::opaque]
pub open spec fn spec_confusion_stage(
    side: Side,
    now: Pokemon,
    r: SideReference,
    p: Percentage,
    l: Seq<Instruction>,
) -> (Percentage, Seq<Instruction>, Seq<(Percentage, Seq<Instruction>)>) {
    if side.spec_active().volatile_statuses.spec_contains(PokemonVolatileStatus::CONFUSION) {
        let dmg = spec_confusion_damage(now.level, side.spec_boosted_stat(PokemonBoostableStat::Attack),
            side.spec_boosted_stat(PokemonBoostableStat::Defense), now.status == PokemonStatus::BURN, now.hp);
        (p.spec_scaled(2, 3), l,
            seq![(p.spec_scaled(1, 3), l.push(Instruction::Damage(DamageInstruction { side_ref: r, slot: 0, damage_amount: dmg })))])
    } else {
        (p, l, seq![])
    }
}

pub open spec fn spec_pow3(k: nat) -> nat
    decreases k,
{
    if k == 0 { 1 } else { 3 * spec_pow3((k - 1) as nat) }
}

proof fn lemma_pow3_monotonic(i: nat, j: nat)
    requires
        i <= j,
    ensures
        spec_pow3(i) <= spec_pow3(j),
    decreases j,
{
    if i < j {
        lemma_pow3_monotonic(i, (j - 1) as nat);
    }
}

/// The odds against a protecting move after `protect` protecting turns in a
/// row: `3` to the power `protect`, counting at most thirty turns.
pub open spec fn spec_protect_odds(protect: i8) -> nat {
    spec_pow3(if protect > 30 { 30nat } else { protect as nat })
}

/// Protecting again after protecting `protect` times in a row succeeds one
/// time in `spec_protect_odds(protect)`.
#[verifier::opaque]
pub open spec fn spec_protect_stage(
    protect: i8,
    choice_vs: Option<VolatileStatus>,
    p: Percentage,
    l: Seq<Instruction>,
) -> (Percentage, Seq<Instruction>, Seq<(Percentage, Seq<Instruction>)>) {
    if protect > 0 && choice_vs is Some && spec_is_protect_volatile(choice_vs->0.volatile_status) {
        let odds = spec_protect_odds(protect);
        (p.spec_scaled(1, odds as u64), l, seq![(p.spec_scaled((odds - 1) as u64, odds as u64), l)])
    } else {
        (p, l, seq![])
    }
}

proof fn lemma_status_stage_of_sleeper(
    a: Pokemon,
    r: SideReference,
    idx: PokemonIndex,
    move_id: Choices,
    p: Percentage,
    l: Seq<Instruction>,
)
    requires
        a.status == PokemonStatus::SLEEP,
    ensures
        spec_status_stage(a, r, idx, move_id, p, l) == spec_sleep_stage(a, r, idx, move_id, p, l),
{
    reveal(spec_status_stage);
}

/// Paralysis stops a quarter of the moves; a freeze thaws a fifth of the time.
fn paralysis_or_freeze(
    attacker: Pokemon,
    side_ref: SideReference,
    idx: PokemonIndex,
    attacker_choice: &Choice,
    incoming_instructions: &mut StateInstructions,
    final_instructions: &mut Vec<StateInstructions>,
) -> (a: Pokemon)
    requires
        attacker.status != PokemonStatus::SLEEP,
    ensures
        ({
            let (p, l, added, a2) = spec_status_stage(attacker, side_ref, idx, attacker_choice.move_id,
                old(incoming_instructions).percentage, old(incoming_instructions).instruction_list@);
            &&& final(incoming_instructions).percentage == p
            &&& final(incoming_instructions).instruction_list@ == l
            &&& spec_branches_added(old(final_instructions)@, final(final_instructions)@, added)
            &&& a == a2
        }),
{
    reveal(spec_status_stage);
    let ghost f0 = final_instructions@;
    if attacker.status == PokemonStatus::PARALYZE {
        let mut fully_paralyzed = incoming_instructions.duplicate();
        fully_paralyzed.update_percentage(1, 4);
        final_instructions.push(fully_paralyzed);
        incoming_instructions.update_percentage(3, 4);
        attacker
    } else if attacker.status == PokemonStatus::FREEZE {
        let mut still_frozen = incoming_instructions.duplicate();
        still_frozen.update_percentage(4, 5);
        final_instructions.push(still_frozen);
        incoming_instructions.update_percentage(1, 5);
        incoming_instructions.push(Instruction::ChangeStatus(ChangeStatusInstruction {
            side_ref,
            pokemon_index: idx,
            old_status: PokemonStatus::FREEZE,
            new_status: PokemonStatus::NONE,
        }));
        Pokemon { status: PokemonStatus::NONE, ..attacker }
    } else {
        assert(final_instructions@ =~= f0);
        attacker
    }
}

/// A sleeping attacker: Rest counts down its turns; otherwise it may wake up,
/// and Sleep Talk acts only while it sleeps.
#[verifier::spinoff_prover]
#[verifier::rlimit(100)]
fn sleep_branches(
    attacker: Pokemon,
    side_ref: SideReference,
    idx: PokemonIndex,
    attacker_choice: &Choice,
    incoming_instructions: &mut StateInstructions,
    final_instructions: &mut Vec<StateInstructions>,
) -> (a: Pokemon)
    requires
        attacker.status == PokemonStatus::SLEEP,
        0 <= attacker.rest_turns <= 3,
    ensures
        ({
            let (p, l, added, a2) = spec_sleep_stage(attacker, side_ref, idx, attacker_choice.move_id,
                old(incoming_instructions).percentage, old(incoming_instructions).instruction_list@);
            &&& final(incoming_instructions).percentage == p
            &&& final(incoming_instructions).instruction_list@ == l
            &&& spec_branches_added(old(final_instructions)@, final(final_instructions)@, added)
            &&& a == a2
        }),
{
    reveal(spec_sleep_stage);
    let ghost f0 = final_instructions@;
    let wake_status = Instruction::ChangeStatus(ChangeStatusInstruction {
        side_ref,
        pokemon_index: idx,
        old_status: PokemonStatus::SLEEP,
        new_status: PokemonStatus::NONE,
    });
    if attacker.rest_turns == 0 {
        let current_sleep_turns = attacker.sleep_turns;
        let (n, d) = chance_to_wake_up(current_sleep_turns);
        let next_turns = if current_sleep_turns < 127 { current_sleep_turns + 1 } else { current_sleep_turns };
        let wake_turns = Instruction::SetSleepTurns(SetSleepTurnsInstruction {
            side_ref,
            pokemon_index: idx,
            new_turns: 0,
            previous_turns: current_sleep_turns,
        });
        let stay_turns = Instruction::SetSleepTurns(SetSleepTurnsInstruction {
            side_ref,
            pokemon_index: idx,
            new_turns: next_turns,
            previous_turns: current_sleep_turns,
        });
        if n == d {
            incoming_instructions.push(wake_status);
            incoming_instructions.push(wake_turns);
            assert(final_instructions@ =~= f0);
            Pokemon { status: PokemonStatus::NONE, sleep_turns: 0, ..attacker }
        } else if n == 0 {
            if attacker_choice.move_id == Choices::SLEEPTALK {
                incoming_instructions.push(stay_turns);
                assert(final_instructions@ =~= f0);
            } else {
                let mut still_asleep = incoming_instructions.duplicate();
                still_asleep.push(stay_turns);
                final_instructions.push(still_asleep);
                incoming_instructions.update_percentage(0, 1);
            }
            attacker
        } else {
            let mut do_nothing = incoming_instructions.duplicate();
            if attacker_choice.move_id == Choices::SLEEPTALK {
                do_nothing.push(wake_status);
                do_nothing.push(wake_turns);
                incoming_instructions.push(stay_turns);
                do_nothing.update_percentage(n, d);
                incoming_instructions.update_percentage(d - n, d);
                final_instructions.push(do_nothing);
                Pokemon { sleep_turns: next_turns, ..attacker }
            } else {
                do_nothing.push(stay_turns);
                incoming_instructions.push(wake_status);
                incoming_instructions.push(wake_turns);
                do_nothing.update_percentage(d - n, d);
                incoming_instructions.update_percentage(n, d);
                final_instructions.push(do_nothing);
                Pokemon { status: PokemonStatus::NONE, sleep_turns: 0, ..attacker }
            }
        }
    } else if attacker.rest_turns == 1 {
        incoming_instructions.push(wake_status);
        incoming_instructions.push(Instruction::DecrementRestTurns(DecrementRestTurnsInstruction { side_ref }));
        assert(final_instructions@ =~= f0);
        Pokemon { status: PokemonStatus::NONE, rest_turns: 0, ..attacker }
    } else {
        incoming_instructions.push(Instruction::DecrementRestTurns(DecrementRestTurnsInstruction { side_ref }));
        assert(final_instructions@ =~= f0);
        Pokemon { rest_turns: attacker.rest_turns - 1, ..attacker }
    }
}

/// A confused attacker hits itself a third of the time.
fn confusion_branch(
    before: &Side,
    now: &Pokemon,
    side_ref: SideReference,
    incoming_instructions: &mut StateInstructions,
    final_instructions: &mut Vec<StateInstructions>,
)
    requires
        before.spec_active().volatile_statuses.spec_contains(PokemonVolatileStatus::CONFUSION)
            ==> before.spec_boosted_stat_fits(PokemonBoostableStat::Attack)
                && before.spec_boosted_stat_fits(PokemonBoostableStat::Defense),
    ensures
        ({
            let (p, l, added) = spec_confusion_stage(*before, *now, side_ref,
                old(incoming_instructions).percentage, old(incoming_instructions).instruction_list@);
            &&& final(incoming_instructions).percentage == p
            &&& final(incoming_instructions).instruction_list@ == l
            &&& spec_branches_added(old(final_instructions)@, final(final_instructions)@, added)
        }),
{
    reveal(spec_confusion_stage);
    let ghost f0 = final_instructions@;
    if before.get_active_immutable().volatile_statuses.contains(&PokemonVolatileStatus::CONFUSION) {
        let attacking_stat = before.calculate_boosted_stat(PokemonBoostableStat::Attack);
        let defending_stat = before.calculate_boosted_stat(PokemonBoostableStat::Defense);
        let dmg = confusion_damage(now.level, attacking_stat, defending_stat,
            now.status == PokemonStatus::BURN, now.hp);
        let mut hit_yourself = incoming_instructions.duplicate();
        hit_yourself.update_percentage(1, 3);
        hit_yourself.push(Instruction::Damage(DamageInstruction::new(side_ref, 0, dmg)));
        final_instructions.push(hit_yourself);
        incoming_instructions.update_percentage(2, 3);
    } else {
        assert(final_instructions@ =~= f0);
    }
}

/// Protecting again after protecting fails two times in three, compounding.
fn protect_branch(
    protect: i8,
    attacker_choice: &Choice,
    incoming_instructions: &mut StateInstructions,
    final_instructions: &mut Vec<StateInstructions>,
)
    ensures
        ({
            let (p, l, added) = spec_protect_stage(protect, attacker_choice.volatile_status,
                old(incoming_instructions).percentage, old(incoming_instructions).instruction_list@);
            &&& final(incoming_instructions).percentage == p
            &&& final(incoming_instructions).instruction_list@ == l
            &&& spec_branches_added(old(final_instructions)@, final(final_instructions)@, added)
        }),
{
    reveal(spec_protect_stage);
    let ghost f0 = final_instructions@;
    if protect > 0 {
        if let Some(vs) = attacker_choice.volatile_status {
            if is_protect_volatile(vs.volatile_status) {
                let times: i8 = if protect > 30 { 30 } else { protect };
                let mut den: u64 = 1;
                let mut k: i8 = 0;
                while k < times
                    invariant
                        0 <= k <= times <= 30,
                        den == spec_pow3(k as nat),
                    decreases times - k,
                {
                    proof {
                        lemma_pow3_monotonic(k as nat, 29);
                        assert(spec_pow3(29) == 68630377364883) by {
                            reveal_with_fuel(spec_pow3, 30);
                        }
                    }
                    den = den * 3;
                    k = k + 1;
                }
                proof {
                    lemma_pow3_monotonic(0, times as nat);
                }
                let mut protect_fail = incoming_instructions.duplicate();
                protect_fail.update_percentage(den - 1, den);
                final_instructions.push(protect_fail);
                incoming_instructions.update_percentage(1, den);
                return;
            }
        }
    }
    assert(final_instructions@ =~= f0);
}

/// The branches that the status of the attacker of `r` makes of `(p, l)`,
/// with `side` that side as the turn began: after its status (sleep,
/// paralysis, a freeze), its confusion, and a repeated protecting move, in
/// that order. Gives the branch in which the attacker acts, the branches in
/// which it does not, and the attacker afterwards.
pub open spec fn spec_existing_status_conditions(
    side: Side,
    r: SideReference,
    choice: Choice,
    p: Percentage,
    l: Seq<Instruction>,
) -> (Percentage, Seq<Instruction>, Seq<(Percentage, Seq<Instruction>)>, Pokemon) {
    let (p1, l1, b1, a1) = spec_status_stage(side.spec_active(), r, side.active_index, choice.move_id, p, l);
    let (p2, l2, b2) = spec_confusion_stage(side, a1, r, p1, l1);
    let (p3, l3, b3) = spec_protect_stage(side.side_conditions.protect, choice.volatile_status, p2, l2);
    (p3, l3, b1 + b2 + b3, a1)
}

/// Every branch of `bs` starts with the instructions `l`.
pub open spec fn spec_all_start_with(l: Seq<Instruction>, bs: Seq<(Percentage, Seq<Instruction>)>) -> bool {
    forall|k: int| 0 <= k < bs.len() ==> spec_extends(l, #[trigger] bs[k].1)
}

proof fn lemma_extends_trans(a: Seq<Instruction>, b: Seq<Instruction>, c: Seq<Instruction>)
    requires
        spec_extends(a, b),
        spec_extends(b, c),
    ensures
        spec_extends(a, c),
{
    assert forall|k: int| 0 <= k < a.len() implies c[k] == a[k] by {
        assert(c[k] == b[k]);
    }
}

proof fn lemma_all_start_with_trans(a: Seq<Instruction>, b: Seq<Instruction>, bs: Seq<(Percentage, Seq<Instruction>)>)
    requires
        spec_extends(a, b),
        spec_all_start_with(b, bs),
    ensures
        spec_all_start_with(a, bs),
{
    assert forall|k: int| 0 <= k < bs.len() implies spec_extends(a, #[trigger] bs[k].1) by {
        lemma_extends_trans(a, b, bs[k].1);
    }
}

proof fn lemma_status_stage_starts_with(a: Pokemon, r: SideReference, idx: PokemonIndex, m: Choices, p: Percentage, l: Seq<Instruction>)
    ensures
        ({
            let (p1, l1, b1, a1) = spec_status_stage(a, r, idx, m, p, l);
            spec_extends(l, l1) && spec_all_start_with(l, b1)
        }),
{
    reveal(spec_status_stage);
    reveal(spec_sleep_stage);
}

proof fn lemma_confusion_stage_starts_with(side: Side, now: Pokemon, r: SideReference, p: Percentage, l: Seq<Instruction>)
    ensures
        ({
            let (p1, l1, b1) = spec_confusion_stage(side, now, r, p, l);
            spec_extends(l, l1) && spec_all_start_with(l, b1)
        }),
{
    reveal(spec_confusion_stage);
}

proof fn lemma_protect_stage_starts_with(protect: i8, vs: Option<VolatileStatus>, p: Percentage, l: Seq<Instruction>)
    ensures
        ({
            let (p1, l1, b1) = spec_protect_stage(protect, vs, p, l);
            spec_extends(l, l1) && spec_all_start_with(l, b1)
        }),
{
    reveal(spec_protect_stage);
}

/// Every branch that the status of the attacker makes, the one in which it
/// acts and each one in which it does not, starts with the incoming
/// instructions.
pub proof fn law_status_branches_start_with_incoming(
    side: Side,
    r: SideReference,
    choice: Choice,
    p: Percentage,
    l: Seq<Instruction>,
)
    ensures
        ({
            let (p3, l3, added, a) = spec_existing_status_conditions(side, r, choice, p, l);
            spec_extends(l, l3) && spec_all_start_with(l, added)
        }),
{
    let (p1, l1, b1, a1) = spec_status_stage(side.spec_active(), r, side.active_index, choice.move_id, p, l);
    let (p2, l2, b2) = spec_confusion_stage(side, a1, r, p1, l1);
    let (p3, l3, b3) = spec_protect_stage(side.side_conditions.protect, choice.volatile_status, p2, l2);
    lemma_status_stage_starts_with(side.spec_active(), r, side.active_index, choice.move_id, p, l);
    lemma_confusion_stage_starts_with(side, a1, r, p1, l1);
    lemma_protect_stage_starts_with(side.side_conditions.protect, choice.volatile_status, p2, l2);
    lemma_extends_trans(l, l1, l2);
    lemma_extends_trans(l, l2, l3);
    lemma_all_start_with_trans(l, l1, b2);
    lemma_all_start_with_trans(l, l2, b3);
    let added = b1 + b2 + b3;
    assert forall|k: int| 0 <= k < added.len() implies spec_extends(l, #[trigger] added[k].1) by {
        if k < b1.len() {
            assert(added[k] == b1[k]);
        } else if k < b1.len() + b2.len() {
            assert(added[k] == b2[k - b1.len()]);
        } else {
            assert(added[k] == b3[k - b1.len() - b2.len()]);
        }
    }
}

/// What the status of the attacker of `attacking_side_ref` does as it tries to
/// move. Paralysis, a freeze, sleep, confusion and a repeated Protect split the
/// turn: each branch in which the attacker is stopped goes to
/// `final_instructions`, starting with the incoming instructions, and the
/// branch in which it acts stays in `incoming_instructions`; each takes its
/// share of the chance (see `spec_existing_status_conditions`).
#[verifier::spinoff_prover]
#[verifier::rlimit(60)]
pub fn generate_instructions_from_existing_status_conditions(
    state: &mut State,
    attacking_side_ref: &SideReference,
    attacker_choice: &Choice,
    incoming_instructions: &mut StateInstructions,
    final_instructions: &mut Vec<StateInstructions>,
)
    requires
        old(state).spec_side(*attacking_side_ref).spec_active().status == PokemonStatus::SLEEP
            ==> 0 <= old(state).spec_side(*attacking_side_ref).spec_active().rest_turns <= 3,
        old(state).spec_side(*attacking_side_ref).spec_active().volatile_statuses.spec_contains(PokemonVolatileStatus::CONFUSION)
            ==> old(state).spec_side(*attacking_side_ref).spec_boosted_stat_fits(PokemonBoostableStat::Attack)
                && old(state).spec_side(*attacking_side_ref).spec_boosted_stat_fits(PokemonBoostableStat::Defense),
    ensures
        ({
            let (p, l, added, a) = spec_existing_status_conditions(old(state).spec_side(*attacking_side_ref),
                *attacking_side_ref, *attacker_choice,
                old(incoming_instructions).percentage, old(incoming_instructions).instruction_list@);
            &&& final(incoming_instructions).percentage == p
            &&& final(incoming_instructions).instruction_list@ == l
            &&& spec_branches_added(old(final_instructions)@, final(final_instructions)@, added)
            &&& *final(state) == old(state).spec_with_active(*attacking_side_ref, a)
        }),
{
    let side_ref = *attacking_side_ref;
    let before = *state.get_side_immutable(attacking_side_ref);
    let attacker = *before.get_active_immutable();
    let idx = before.active_index;
    let ghost f0 = final_instructions@;
    let ghost p0 = incoming_instructions.percentage;
    let ghost l0 = incoming_instructions.instruction_list@;
    let now = if attacker.status == PokemonStatus::SLEEP {
        sleep_branches(attacker, side_ref, idx, attacker_choice, incoming_instructions, final_instructions)
    } else {
        paralysis_or_freeze(attacker, side_ref, idx, attacker_choice, incoming_instructions, final_instructions)
    };
    let ghost f1 = final_instructions@;
    *state.get_side(attacking_side_ref).get_active() = now;
    confusion_branch(&before, &now, side_ref, incoming_instructions, final_instructions);
    let ghost f2 = final_instructions@;
    protect_branch(before.side_conditions.protect, attacker_choice, incoming_instructions, final_instructions);
    proof {
        if attacker.status == PokemonStatus::SLEEP {
            lemma_status_stage_of_sleeper(attacker, side_ref, idx, attacker_choice.move_id, p0, l0);
        }
        let (p1, l1, b1, a1) = spec_status_stage(attacker, side_ref, idx, attacker_choice.move_id, p0, l0);
        let (p2, l2, b2) = spec_confusion_stage(before, a1, side_ref, p1, l1);
        let (p3, l3, b3) = spec_protect_stage(before.side_conditions.protect, attacker_choice.volatile_status, p2, l2);
        lemma_branches_added_trans(f0, f1, f2, b1, b2);
        lemma_branches_added_trans(f0, f2, final_instructions@, b1 + b2, b3);
    }
}

} // verus!
