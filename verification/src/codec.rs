//! Byte codec for the persisted race state.
//!
//! The layout is fixed and deterministic: explicit field order, fixed-width
//! little-endian integers, a length-prefixed roster, and a tag-prefixed
//! optional winner. Timestamps are written as their 64-bit two's-complement
//! bit pattern. The storage buffer is pre-sized to hold a full roster, so
//! decoding ignores whatever lies beyond the encoding it reads.

use vstd::prelude::*;
use vstd::bytes::*;
use vstd::slice::slice_subrange;
use crate::state::GameState;
use crate::state::HorseRace;
use crate::state::Player;
use crate::state::RaceError;
use crate::state::Wallet;
use crate::state::MAX_PLAYERS;
use crate::state::race_wf;
use crate::state::roster_wf;
use crate::state::distinct_wallets;

verus! {

/// The 64-bit two's-complement bit pattern of a timestamp.
pub open spec fn spec_time_to_u64(t: i64) -> u64 {
    if t >= 0 {
        t as u64
    } else {
        (t + 0x1_0000_0000_0000_0000) as u64
    }
}

/// The timestamp whose two's-complement bit pattern is the given word.
pub open spec fn spec_u64_to_time(u: u64) -> i64 {
    if u < 0x8000_0000_0000_0000 {
        u as i64
    } else {
        (u - 0x1_0000_0000_0000_0000) as i64
    }
}

pub proof fn lemma_time_round_trip(t: i64)
    ensures
        spec_u64_to_time(spec_time_to_u64(t)) == t,
{
}

pub open spec fn spec_state_tag(s: GameState) -> u8 {
    match s {
        GameState::WaitingForPlayers => 0,
        GameState::RaceInProgress => 1,
        GameState::RaceCompleted => 2,
    }
}

pub open spec fn spec_encode_wallet(w: Wallet) -> Seq<u8> {
    spec_u64_to_le_bytes(w.w0) + spec_u64_to_le_bytes(w.w1) + spec_u64_to_le_bytes(w.w2)
        + spec_u64_to_le_bytes(w.w3)
}

pub open spec fn spec_decode_wallet(s: Seq<u8>) -> Wallet
    recommends
        s.len() == 32,
{
    Wallet {
        w0: spec_u64_from_le_bytes(s.subrange(0, 8)),
        w1: spec_u64_from_le_bytes(s.subrange(8, 16)),
        w2: spec_u64_from_le_bytes(s.subrange(16, 24)),
        w3: spec_u64_from_le_bytes(s.subrange(24, 32)),
    }
}

pub open spec fn spec_encode_player(p: Player) -> Seq<u8> {
    spec_encode_wallet(p.wallet) + spec_u64_to_le_bytes(spec_time_to_u64(p.joined_at))
}

pub open spec fn spec_encode_players(ps: Seq<Player>) -> Seq<u8>
    decreases ps.len(),
{
    if ps.len() == 0 {
        Seq::empty()
    } else {
        spec_encode_players(ps.drop_last()) + spec_encode_player(ps.last())
    }
}

pub open spec fn spec_decode_player(s: Seq<u8>) -> Player
    recommends
        s.len() == 40,
{
    Player {
        wallet: spec_decode_wallet(s.subrange(0, 32)),
        joined_at: spec_u64_to_time(spec_u64_from_le_bytes(s.subrange(32, 40))),
    }
}

/// The first `n` roster entries laid out at `off`, forty bytes apart.
pub open spec fn spec_decode_players(d: Seq<u8>, off: int, n: nat) -> Seq<Player>
    decreases n,
{
    if n == 0 {
        Seq::empty()
    } else {
        spec_decode_players(d, off, (n - 1) as nat).push(
            spec_decode_player(d.subrange(off + 40 * (n - 1), off + 40 * n)),
        )
    }
}

pub open spec fn spec_encode_winner(w: Option<usize>) -> Seq<u8> {
    match w {
        Option::None => seq![0u8],
        Option::Some(i) => seq![1u8] + spec_u64_to_le_bytes(i as u64),
    }
}

/// The full encoding over the fields of a race: state tag, roster count,
/// roster, start time, winner, stake token.
pub open spec fn spec_encode_race_parts(
    state: GameState,
    players: Seq<Player>,
    start_time: i64,
    winner_index: Option<usize>,
    token_mint: Wallet,
) -> Seq<u8> {
    seq![spec_state_tag(state)] + spec_u32_to_le_bytes(players.len() as u32)
        + spec_encode_players(players) + spec_u64_to_le_bytes(spec_time_to_u64(start_time))
        + spec_encode_winner(winner_index) + spec_encode_wallet(token_mint)
}

/// The full encoding of a race value.
pub open spec fn spec_encode_race(r: HorseRace) -> Seq<u8> {
    spec_encode_race_parts(r.state, r.players@, r.start_time, r.winner_index, r.token_mint)
}

/// The fields of a race, as a tuple a spec decoder can yield.
pub open spec fn spec_race_parts(r: HorseRace) -> (GameState, Seq<Player>, i64, Option<
    usize,
>, Wallet) {
    (r.state, r.players@, r.start_time, r.winner_index, r.token_mint)
}

/// What deserialization yields on the given bytes: `None` on any malformed
/// or invariant-breaking input, otherwise the decoded fields. Bytes beyond
/// the encoding are ignored: the storage buffer is pre-sized for a full
/// roster.
pub open spec fn spec_decode_race(d: Seq<u8>) -> Option<
    (GameState, Seq<Player>, i64, Option<usize>, Wallet),
> {
    if d.len() < 5 {
        Option::None
    } else if d[0] > 2 {
        Option::None
    } else {
        let state = if d[0] == 0 {
            GameState::WaitingForPlayers
        } else if d[0] == 1 {
            GameState::RaceInProgress
        } else {
            GameState::RaceCompleted
        };
        let n = spec_u32_from_le_bytes(d.subrange(1, 5)) as int;
        if n > MAX_PLAYERS {
            Option::None
        } else {
            let t0 = 5 + 40 * n;
            if d.len() < t0 + 9 {
                Option::None
            } else {
                let players = spec_decode_players(d, 5, n as nat);
                let start_time = spec_u64_to_time(spec_u64_from_le_bytes(d.subrange(t0, t0 + 8)));
                let wtag = d[t0 + 8];
                if wtag == 0 {
                    if d.len() < t0 + 9 + 32 {
                        Option::None
                    } else {
                        let mint = spec_decode_wallet(d.subrange(t0 + 9, t0 + 41));
                        if roster_wf(state, players, start_time, Option::None) {
                            Option::Some((state, players, start_time, Option::None, mint))
                        } else {
                            Option::None
                        }
                    }
                } else if wtag == 1 {
                    if d.len() < t0 + 17 + 32 {
                        Option::None
                    } else {
                        let wi = spec_u64_from_le_bytes(d.subrange(t0 + 9, t0 + 17));
                        if wi > MAX_PLAYERS as u64 {
                            Option::None
                        } else {
                            let mint = spec_decode_wallet(d.subrange(t0 + 17, t0 + 49));
                            if roster_wf(state, players, start_time, Option::Some(wi as usize)) {
                                Option::Some(
                                    (state, players, start_time, Option::Some(wi as usize), mint),
                                )
                            } else {
                                Option::None
                            }
                        }
                    }
                } else {
                    Option::None
                }
            }
        }
    }
}

pub proof fn lemma_encode_players_len(ps: Seq<Player>)
    ensures
        spec_encode_players(ps).len() == 40 * ps.len(),
    decreases ps.len(),
{
    lemma_auto_spec_u64_to_from_le_bytes();
    if ps.len() > 0 {
        lemma_encode_players_len(ps.drop_last());
    }
}

pub proof fn lemma_wallet_round_trip(w: Wallet)
    ensures
        spec_encode_wallet(w).len() == 32,
        spec_decode_wallet(spec_encode_wallet(w)) == w,
{
    lemma_auto_spec_u64_to_from_le_bytes();
    let e = spec_encode_wallet(w);
    assert(e.subrange(0, 8) =~= spec_u64_to_le_bytes(w.w0));
    assert(e.subrange(8, 16) =~= spec_u64_to_le_bytes(w.w1));
    assert(e.subrange(16, 24) =~= spec_u64_to_le_bytes(w.w2));
    assert(e.subrange(24, 32) =~= spec_u64_to_le_bytes(w.w3));
}

pub proof fn lemma_player_round_trip(p: Player)
    ensures
        spec_encode_player(p).len() == 40,
        spec_decode_player(spec_encode_player(p)) == p,
{
    lemma_auto_spec_u64_to_from_le_bytes();
    lemma_wallet_round_trip(p.wallet);
    let e = spec_encode_player(p);
    assert(e.subrange(0, 32) =~= spec_encode_wallet(p.wallet));
    assert(e.subrange(32, 40) =~= spec_u64_to_le_bytes(spec_time_to_u64(p.joined_at)));
    lemma_time_round_trip(p.joined_at);
}

/// Decoding inverts encoding for a roster laid out anywhere inside a larger
/// byte string.
pub proof fn lemma_players_round_trip(d: Seq<u8>, off: int, ps: Seq<Player>)
    requires
        0 <= off,
        off + 40 * ps.len() <= d.len(),
        d.subrange(off, off + 40 * ps.len()) == spec_encode_players(ps),
    ensures
        spec_decode_players(d, off, ps.len()) == ps,
    decreases ps.len(),
{
    if ps.len() > 0 {
        let n = ps.len() as int;
        let whole = spec_encode_players(ps);
        let init = spec_encode_players(ps.drop_last());
        let last = spec_encode_player(ps.last());
        lemma_encode_players_len(ps);
        lemma_encode_players_len(ps.drop_last());
        lemma_player_round_trip(ps.last());
        assert(whole == init + last);
        assert forall|i: int| 0 <= i < 40 * (n - 1) implies d.subrange(off, off + 40 * (n - 1))[i]
            == init[i] by {
            assert(d.subrange(off, off + 40 * n)[i] == (init + last)[i]);
        }
        assert(d.subrange(off, off + 40 * (n - 1)) =~= init);
        lemma_players_round_trip(d, off, ps.drop_last());
        assert forall|i: int| 0 <= i < 40 implies d.subrange(off + 40 * (n - 1), off + 40 * n)[i]
            == last[i] by {
            assert(d.subrange(off, off + 40 * n)[40 * (n - 1) + i] == (init + last)[40 * (n - 1)
                + i]);
        }
        assert(d.subrange(off + 40 * (n - 1), off + 40 * n) =~= last);
        assert(spec_decode_players(d, off, ps.len()) =~= ps);
    } else {
        assert(spec_decode_players(d, off, 0) =~= ps);
    }
}

/// Serializing then deserializing any valid race state yields the identical
/// value.
pub proof fn lemma_race_round_trip(r: HorseRace)
    requires
        race_wf(r),
    ensures
        spec_decode_race(spec_encode_race(r)) == Option::Some(spec_race_parts(r)),
{
    lemma_auto_spec_u64_to_from_le_bytes();
    lemma_auto_spec_u32_to_from_le_bytes();
    let d = spec_encode_race(r);
    let ps = r.players@;
    let n = ps.len() as int;
    lemma_encode_players_len(ps);
    lemma_wallet_round_trip(r.token_mint);
    lemma_time_round_trip(r.start_time);
    let t0 = 5 + 40 * n;
    let wenc = spec_encode_winner(r.winner_index);
    let wlen = wenc.len() as int;
    assert(d.len() == t0 + 8 + wlen + 32);
    assert(d[0] == spec_state_tag(r.state));
    assert(d.subrange(1, 5) =~= spec_u32_to_le_bytes(n as u32));
    assert(spec_u32_from_le_bytes(d.subrange(1, 5)) == n as u32);
    assert(d.subrange(5, t0) =~= spec_encode_players(ps));
    lemma_players_round_trip(d, 5, ps);
    assert(d.subrange(t0, t0 + 8) =~= spec_u64_to_le_bytes(spec_time_to_u64(r.start_time)));
    match r.winner_index {
        Option::None => {
            assert(d[t0 + 8] == 0);
            assert(d.subrange(t0 + 9, t0 + 41) =~= spec_encode_wallet(r.token_mint));
        },
        Option::Some(w) => {
            assert(wenc == seq![1u8] + spec_u64_to_le_bytes(w as u64));
            assert(d[t0 + 8] == 1);
            assert(d.subrange(t0 + 9, t0 + 17) =~= spec_u64_to_le_bytes(w as u64));
            assert(spec_u64_from_le_bytes(d.subrange(t0 + 9, t0 + 17)) == w as u64);
            assert(d.subrange(t0 + 17, t0 + 49) =~= spec_encode_wallet(r.token_mint));
            assert((w as u64) as usize == w);
        },
    }
}

/// Reads the eight-byte little-endian word at `off`.
fn read_u64(d: &[u8], off: usize) -> (r: u64)
    requires
        off + 8 <= d@.len(),
    ensures
        r == spec_u64_from_le_bytes(d@.subrange(off as int, off as int + 8)),
{
    let _len = d.len();
    let s = slice_subrange(d, off, off + 8);
    u64_from_le_bytes(s)
}

/// Reads the 32-byte identity at `off`.
pub fn read_wallet(d: &[u8], off: usize) -> (r: Wallet)
    requires
        off + 32 <= d@.len(),
    ensures
        r == spec_decode_wallet(d@.subrange(off as int, off as int + 32)),
{
    let _len = d.len();
    let w0 = read_u64(d, off);
    let w1 = read_u64(d, off + 8);
    let w2 = read_u64(d, off + 16);
    let w3 = read_u64(d, off + 24);
    proof {
        let s = d@.subrange(off as int, off as int + 32);
        assert(s.subrange(0, 8) =~= d@.subrange(off as int, off as int + 8));
        assert(s.subrange(8, 16) =~= d@.subrange(off as int + 8, off as int + 16));
        assert(s.subrange(16, 24) =~= d@.subrange(off as int + 16, off as int + 24));
        assert(s.subrange(24, 32) =~= d@.subrange(off as int + 24, off as int + 32));
    }
    Wallet { w0, w1, w2, w3 }
}

/// The timestamp with the given two's-complement bit pattern.
pub fn u64_to_time(u: u64) -> (t: i64)
    ensures
        t == spec_u64_to_time(u),
{
    if u < 0x8000_0000_0000_0000 {
        u as i64
    } else {
        (((u - 0x8000_0000_0000_0000) as i64) - 0x4000_0000_0000_0000) - 0x4000_0000_0000_0000
    }
}

/// The two's-complement bit pattern of the given timestamp.
pub fn time_to_u64(t: i64) -> (u: u64)
    ensures
        u == spec_time_to_u64(t),
{
    if t >= 0 {
        t as u64
    } else {
        (((t + 0x4000_0000_0000_0000) + 0x4000_0000_0000_0000) as u64) + 0x8000_0000_0000_0000
    }
}

/// Appends the 32-byte encoding of an identity.
fn write_wallet(out: &mut Vec<u8>, w: &Wallet)
    ensures
        final(out)@ == old(out)@ + spec_encode_wallet(*w),
{
    let mut b0 = u64_to_le_bytes(w.w0);
    let mut b1 = u64_to_le_bytes(w.w1);
    let mut b2 = u64_to_le_bytes(w.w2);
    let mut b3 = u64_to_le_bytes(w.w3);
    out.append(&mut b0);
    out.append(&mut b1);
    out.append(&mut b2);
    out.append(&mut b3);
    proof {
        assert(out@ =~= old(out)@ + spec_encode_wallet(*w));
    }
}

/// The 32-byte encoding of an identity on its own.
pub fn wallet_to_le_bytes(w: &Wallet) -> (out: Vec<u8>)
    ensures
        out@ == spec_encode_wallet(*w),
        out@.len() == 32,
{
    let mut out: Vec<u8> = Vec::new();
    write_wallet(&mut out, w);
    proof {
        lemma_wallet_round_trip(*w);
        assert(out@ =~= spec_encode_wallet(*w));
    }
    out
}

/// Serializes a race into its fixed byte layout.
pub fn serialize_race(r: &HorseRace) -> (out: Vec<u8>)
    requires
        r.players@.len() <= MAX_PLAYERS,
    ensures
        out@ == spec_encode_race(*r),
{
    let mut out: Vec<u8> = Vec::new();
    let tag: u8 = match r.state {
        GameState::WaitingForPlayers => 0,
        GameState::RaceInProgress => 1,
        GameState::RaceCompleted => 2,
    };
    out.push(tag);
    let n = r.players.len();
    let mut nb = u32_to_le_bytes(n as u32);
    out.append(&mut nb);
    let ghost head = out@;
    let mut i: usize = 0;
    while i < n
        invariant
            i <= n,
            n == r.players@.len(),
            out@ == head + spec_encode_players(r.players@.take(i as int)),
        decreases n - i,
    {
        let p = r.players[i];
        write_wallet(&mut out, &p.wallet);
        let mut tb = u64_to_le_bytes(time_to_u64(p.joined_at));
        out.append(&mut tb);
        proof {
            let taken = r.players@.take(i as int + 1);
            assert(taken.drop_last() =~= r.players@.take(i as int));
            assert(taken.last() == r.players@[i as int]);
            assert(out@ =~= head + spec_encode_players(taken));
        }
        i += 1;
    }
    proof {
        assert(r.players@.take(n as int) =~= r.players@);
    }
    let mut st = u64_to_le_bytes(time_to_u64(r.start_time));
    out.append(&mut st);
    match r.winner_index {
        Option::None => {
            out.push(0u8);
        },
        Option::Some(w) => {
            out.push(1u8);
            let mut wb = u64_to_le_bytes(w as u64);
            out.append(&mut wb);
        },
    }
    write_wallet(&mut out, &r.token_mint);
    proof {
        assert(out@ =~= spec_encode_race(*r));
    }
    out
}

/// Whether no two roster entries share a wallet.
fn roster_distinct(players: &Vec<Player>) -> (r: bool)
    ensures
        r == distinct_wallets(players@),
{
    let n = players.len();
    let mut i: usize = 0;
    while i < n
        invariant
            i <= n,
            n == players@.len(),
            forall|a: int, b: int| 0 <= a < b < i ==> players@[a].wallet != players@[b].wallet,
        decreases n - i,
    {
        let mut j: usize = 0;
        while j < i
            invariant
                j <= i < n,
                n == players@.len(),
                forall|b: int| 0 <= b < j ==> players@[b].wallet != players@[i as int].wallet,
            decreases i - j,
        {
            if players[j].wallet == players[i].wallet {
                return false;
            }
            j += 1;
        }
        i += 1;
    }
    true
}

/// Deserializes a race from its fixed byte layout, rejecting malformed
/// bytes and any state that breaks the race invariant.
pub fn deserialize_race(d: &[u8]) -> (result: Result<HorseRace, RaceError>)
    ensures
        match result {
            Ok(r) => spec_decode_race(d@) == Option::Some(spec_race_parts(r)) && race_wf(r),
            Err(e) => e == RaceError::DecodingError && spec_decode_race(d@) is None,
        },
{
    if d.len() < 5 {
        return Err(RaceError::DecodingError);
    }
    let tag = d[0];
    if tag > 2 {
        return Err(RaceError::DecodingError);
    }
    let state = if tag == 0 {
        GameState::WaitingForPlayers
    } else if tag == 1 {
        GameState::RaceInProgress
    } else {
        GameState::RaceCompleted
    };
    let n32 = u32_from_le_bytes(slice_subrange(d, 1, 5));
    if n32 > MAX_PLAYERS as u32 {
        return Err(RaceError::DecodingError);
    }
    let n = n32 as usize;
    let t0 = 5 + 40 * n;
    if d.len() < t0 + 9 {
        return Err(RaceError::DecodingError);
    }
    let mut players: Vec<Player> = Vec::new();
    let mut i: usize = 0;
    while i < n
        invariant
            i <= n,
            t0 == 5 + 40 * n,
            t0 + 9 <= d@.len(),
            players@.len() == i,
            players@ == spec_decode_players(d@, 5, i as nat),
        decreases n - i,
    {
        let off = 5 + 40 * i;
        let wallet = read_wallet(d, off);
        let joined_at = u64_to_time(read_u64(d, off + 32));
        players.push(Player { wallet, joined_at });
        proof {
            let sub = d@.subrange(off as int, off as int + 40);
            assert(sub.subrange(0, 32) =~= d@.subrange(off as int, off as int + 32));
            assert(sub.subrange(32, 40) =~= d@.subrange(off as int + 32, off as int + 40));
            assert(players@ =~= spec_decode_players(d@, 5, (i + 1) as nat));
        }
        i += 1;
    }
    let start_time = u64_to_time(read_u64(d, t0));
    let wtag = d[t0 + 8];
    let winner_index: Option<usize>;
    let mint_off: usize;
    if wtag == 0 {
        if d.len() < t0 + 9 + 32 {
            return Err(RaceError::DecodingError);
        }
        winner_index = None;
        mint_off = t0 + 9;
    } else if wtag == 1 {
        if d.len() < t0 + 17 + 32 {
            return Err(RaceError::DecodingError);
        }
        let wi = read_u64(d, t0 + 9);
        if wi > MAX_PLAYERS as u64 {
            return Err(RaceError::DecodingError);
        }
        winner_index = Some(wi as usize);
        mint_off = t0 + 17;
    } else {
        return Err(RaceError::DecodingError);
    }
    let token_mint = read_wallet(d, mint_off);
    let wf_ok = {
        let distinct = roster_distinct(&players);
        let winner_ok = match winner_index {
            Option::None => !(matches!(state, GameState::RaceCompleted)),
            Option::Some(w) => matches!(state, GameState::RaceCompleted) && w < players.len(),
        };
        let start_ok = !(matches!(state, GameState::WaitingForPlayers)) || start_time == 0;
        distinct && winner_ok && start_ok
    };
    if !wf_ok {
        return Err(RaceError::DecodingError);
    }
    Ok(HorseRace { state, players, start_time, winner_index, token_mint })
}

} // verus!
