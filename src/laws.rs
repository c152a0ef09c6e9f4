//! Properties of the protocol that span several exchanges or sessions.
use vstd::prelude::*;
use crate::rates::{BaudRate, TransmissionMode, baud_value, baud_index, baud_candidates, BAUD_RATE_COUNT};
use crate::protocol::{ok_reply, baud_reply, line_end, mode_marker, COMMA};
use crate::session::{
    AutoBaud, Hc12Error, Step, QUIET_WINDOW_MS, auto_baud_step, test_outcome, set_baud_outcome,
    entry_steps, quiet_shortfall, mode_outcome, baud_after_mode,
};
use crate::text::{
    decimal, lemma_decimal_injective, lemma_decimal_round_trip, lemma_index_of_skip, is_digit,
    trim_start, trim_end, trim, index_of, contains,
};

verus! {

/// The rates that rate detection probes from position `from` on, against a
/// module that answers `OK\r\n` exactly at the rates where `answers` holds, and
/// what detection returns.
pub open spec fn auto_baud_run(answers: spec_fn(BaudRate) -> bool, from: nat) -> (Seq<BaudRate>, Result<BaudRate, Hc12Error>)
    decreases BAUD_RATE_COUNT - from,
{
    if from >= BAUD_RATE_COUNT {
        (Seq::empty(), Err(Hc12Error::AutoBaudRate))
    } else {
        let c = baud_candidates()[from as int];
        match auto_baud_step(c, answers(c)) {
            Ok(AutoBaud::Found(r)) => (seq![c], Ok(r)),
            Ok(AutoBaud::Probe(n)) => if baud_index(n) > from {
                let rest = auto_baud_run(answers, baud_index(n));
                (seq![c] + rest.0, rest.1)
            } else {
                (seq![c], Err(Hc12Error::AutoBaudRate))
            },
            Err(e) => (seq![c], Err(e)),
        }
    }
}

proof fn lemma_candidates()
    ensures
        baud_candidates().len() == BAUD_RATE_COUNT,
        forall|i: int| 0 <= i < BAUD_RATE_COUNT ==> baud_index(#[trigger] baud_candidates()[i]) == i,
        forall|c: BaudRate| #[trigger] baud_candidates()[baud_index(c) as int] == c,
{
    let s = baud_candidates();
    assert(s[0] == BaudRate::Baud1200);
    assert(s[1] == BaudRate::Baud2400);
    assert(s[2] == BaudRate::Baud4800);
    assert(s[3] == BaudRate::Baud9600);
    assert(s[4] == BaudRate::Baud19200);
    assert(s[5] == BaudRate::Baud38400);
    assert(s[6] == BaudRate::Baud57600);
    assert(s[7] == BaudRate::Baud115200);
}

proof fn lemma_detects_from(rate: BaudRate, from: nat)
    requires
        from <= baud_index(rate),
    ensures
        auto_baud_run(|c: BaudRate| c == rate, from) == (
            baud_candidates().subrange(from as int, baud_index(rate) + 1 as int),
            Ok::<BaudRate, Hc12Error>(rate),
        ),
    decreases baud_index(rate) - from,
{
    lemma_candidates();
    let answers = |c: BaudRate| c == rate;
    let c = baud_candidates()[from as int];
    if from == baud_index(rate) {
        assert(baud_candidates().subrange(from as int, from + 1 as int) =~= seq![c]);
    } else {
        assert(c != rate);
        let n = baud_candidates()[from + 1 as int];
        assert(auto_baud_step(c, answers(c)) == Ok::<AutoBaud, Hc12Error>(AutoBaud::Probe(n)));
        lemma_detects_from(rate, from + 1);
        assert(baud_candidates().subrange(from as int, baud_index(rate) + 1 as int) =~= seq![c]
            + baud_candidates().subrange(from + 1 as int, baud_index(rate) + 1 as int));
    }
}

/// Rate detection against a module fixed at `rate` probes the rates in
/// ascending order up to `rate` and returns exactly `rate`.
pub proof fn lemma_auto_baud_detects(rate: BaudRate)
    ensures
        auto_baud_run(|c: BaudRate| c == rate, 0) == (
            baud_candidates().subrange(0, baud_index(rate) + 1 as int),
            Ok::<BaudRate, Hc12Error>(rate),
        ),
{
    lemma_detects_from(rate, 0);
}

proof fn lemma_silent_from(from: nat)
    requires
        from < BAUD_RATE_COUNT,
    ensures
        auto_baud_run(|c: BaudRate| false, from) == (
            baud_candidates().subrange(from as int, BAUD_RATE_COUNT as int),
            Err::<BaudRate, Hc12Error>(Hc12Error::AutoBaudRate),
        ),
    decreases BAUD_RATE_COUNT - from,
{
    lemma_candidates();
    let c = baud_candidates()[from as int];
    if from + 1 == BAUD_RATE_COUNT {
        assert(baud_candidates().subrange(from as int, BAUD_RATE_COUNT as int) =~= seq![c]);
    } else {
        lemma_silent_from(from + 1);
        assert(baud_candidates().subrange(from as int, BAUD_RATE_COUNT as int) =~= seq![c]
            + baud_candidates().subrange(from + 1 as int, BAUD_RATE_COUNT as int));
    }
}

/// Rate detection against a module that never answers `OK\r\n` probes all
/// eight rates in ascending order and fails with the detection error.
pub proof fn lemma_auto_baud_exhausts()
    ensures
        auto_baud_run(|c: BaudRate| false, 0) == (
            baud_candidates(),
            Err::<BaudRate, Hc12Error>(Hc12Error::AutoBaudRate),
        ),
{
    lemma_silent_from(0);
    lemma_candidates();
    assert(baud_candidates().subrange(0, BAUD_RATE_COUNT as int) =~= baud_candidates());
}

/// The confirmations of two rates are equal only when the rates are.
pub proof fn lemma_baud_reply_injective(a: BaudRate, b: BaudRate)
    requires
        baud_reply(a) == baud_reply(b),
    ensures
        a == b,
{
    let da = decimal(baud_value(a));
    let db = decimal(baud_value(b));
    let ra = baud_reply(a);
    assert(ra.subrange(4, ra.len() - 2) =~= da);
    assert(baud_reply(b).subrange(4, baud_reply(b).len() - 2) =~= db);
    lemma_decimal_injective(baud_value(a), baud_value(b));
}

/// A rate change that the module confirms succeeds, and a module that honours
/// the new rate then passes the test; a reply that confirms any other rate
/// fails with the rate error (and the local rate stays as it was).
pub proof fn lemma_set_baud_then_test(rate: BaudRate, other: BaudRate)
    ensures
        set_baud_outcome(rate, baud_reply(rate)) == Ok::<(), Hc12Error>(()),
        test_outcome(ok_reply()) == Ok::<(), Hc12Error>(()),
        other != rate ==> set_baud_outcome(rate, baud_reply(other)) == Err::<(), Hc12Error>(
            Hc12Error::BaudRate,
        ),
{
    if other != rate && baud_reply(other) == baud_reply(rate) {
        lemma_baud_reply_injective(other, rate);
    }
}

/// A reply to a change to `mode` that carries, after the confirmation, a
/// comma, one separator byte `sep`, the numeral of `n` and a line end.
pub open spec fn forcing_reply(mode: TransmissionMode, sep: u8, n: nat) -> Seq<u8> {
    mode_marker(mode) + seq![COMMA, sep] + decimal(n) + line_end()
}

proof fn lemma_marker_shape(mode: TransmissionMode)
    ensures
        mode_marker(mode).len() == 6,
        forall|k: int| 0 <= k < 6 ==> #[trigger] mode_marker(mode)[k] != COMMA,
{
    let d = decimal(crate::rates::mode_digit(mode));
    assert(d.len() == 1);
}

proof fn lemma_forcing_commas(mode: TransmissionMode, sep: u8, n: nat)
    requires
        sep != COMMA,
    ensures
        index_of(forcing_reply(mode, sep, n), COMMA, 0) == 6,
        index_of(forcing_reply(mode, sep, n), COMMA, 7) == forcing_reply(mode, sep, n).len(),
        forcing_reply(mode, sep, n).len() == 10 + decimal(n).len(),
        forcing_reply(mode, sep, n).subrange(0, 6) == mode_marker(mode),
        forcing_reply(mode, sep, n).subrange(8, 10 + decimal(n).len() as int) == decimal(n) + line_end(),
{
    lemma_marker_shape(mode);
    lemma_decimal_round_trip(n);
    let m = mode_marker(mode);
    let d = decimal(n);
    let r = forcing_reply(mode, sep, n);
    let len = r.len() as int;
    assert(r.subrange(0, 6) =~= m);
    assert(r.subrange(8, len) =~= d + line_end());
    assert forall|k: int| 0 <= k < 6 implies r[k] != COMMA by {
        assert(r[k] == m[k]);
    }
    lemma_index_of_skip(r, COMMA, 0, 6);
    assert(r[6] == COMMA);
    assert forall|k: int| 7 <= k < len implies r[k] != COMMA by {
        if 8 <= k < 8 + d.len() {
            assert(r[k] == d[k - 8]);
            assert(is_digit(d[k - 8]));
        }
    }
    lemma_index_of_skip(r, COMMA, 7, len);
}

proof fn lemma_numeral_field(n: nat)
    ensures
        trim(decimal(n) + line_end()) == decimal(n),
{
    lemma_decimal_round_trip(n);
    let d = decimal(n);
    let field = d + line_end();
    assert(is_digit(d[0]));
    assert(field[0] == d[0]);
    assert(trim_start(field) == field);
    assert(field.drop_last().drop_last() =~= d);
    assert(is_digit(d.last()));
    assert(trim_end(d) == d);
    assert(trim_end(field.drop_last()) == trim_end(d));
}

/// A reply that confirms a mode change and carries the numeral of a rate in
/// its second field makes that rate the local rate, with no further exchange.
pub proof fn lemma_mode_reply_forces_rate(mode: TransmissionMode, sep: u8, n: u32, baud: u32)
    requires
        sep != COMMA,
    ensures
        mode_outcome(mode, forcing_reply(mode, sep, n as nat)) == Ok::<(), Hc12Error>(()),
        baud_after_mode(baud, mode, forcing_reply(mode, sep, n as nat)) == n,
{
    lemma_forcing_commas(mode, sep, n as nat);
    lemma_numeral_field(n as nat);
    lemma_decimal_round_trip(n as nat);
    let r = forcing_reply(mode, sep, n as nat);
    assert(r.subrange(0, 0 + mode_marker(mode).len() as int) == mode_marker(mode));
    assert(contains(r, mode_marker(mode)));
}

/// A reply that is the bare confirmation of a mode change leaves the local
/// rate as it was.
pub proof fn lemma_mode_reply_keeps_rate(mode: TransmissionMode, baud: u32)
    ensures
        mode_outcome(mode, mode_marker(mode) + line_end()) == Ok::<(), Hc12Error>(()),
        baud_after_mode(baud, mode, mode_marker(mode) + line_end()) == baud,
{
    lemma_marker_shape(mode);
    let m = mode_marker(mode);
    let r = m + line_end();
    assert(r.subrange(0, 6) =~= m);
    assert(r.subrange(0, 0 + m.len() as int) == m);
    assert(contains(r, m));
    assert forall|k: int| 0 <= k < r.len() implies r[k] != COMMA by {
        if k < 6 {
            assert(r[k] == m[k]);
        }
    }
    lemma_index_of_skip(r, COMMA, 0, r.len() as int);
}

/// A session opened at `now`, less than the quiet window after the previous
/// one closed at `closed_at`, first waits out the whole shortfall and only then
/// drives the mode line low.
pub proof fn lemma_quiet_window_respected(closed_at: u64, now: u64)
    requires
        closed_at <= now,
        now < closed_at + QUIET_WINDOW_MS,
    ensures
        entry_steps(quiet_shortfall(closed_at, now)).len() == 3,
        entry_steps(quiet_shortfall(closed_at, now))[0] == Step::Sleep(
            (closed_at + QUIET_WINDOW_MS - now) as u32,
        ),
        entry_steps(quiet_shortfall(closed_at, now))[1] == Step::SetModeLine(false),
{
}

} // verus!
