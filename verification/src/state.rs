use vstd::prelude::*;

use crate::address::Address;

verus! {

/// The single persisted record of a deployment: it marks initialization as
/// complete and binds the one mint and the one authority proof byte that this
/// instance is allowed to issue with. Once written, its fields never change.
pub struct State {
    /// Guards against dispensing before setup completed.
    pub is_initialized: bool,
    /// The unique mint this instance is authorized to issue.
    pub mint: Address,
    /// The proof byte that, with the fixed seed, re-derives the authority.
    pub bump: u8,
}

/// The mathematical value of a `State` record.
#[verifier::ext_equal]
pub ghost struct StateView {
    pub is_initialized: bool,
    pub mint: Seq<u8>,
    pub bump: u8,
}

impl View for State {
    type V = StateView;

    open spec fn view(&self) -> StateView {
        StateView {
            is_initialized: self.is_initialized,
            mint: self.mint@,
            bump: self.bump,
        }
    }
}

impl State {
    /// The persisted payload: one flag byte, a 32-byte address, one proof byte.
    pub const LEN: usize = 1 + 32 + 1;

    pub open spec fn wf(&self) -> bool {
        self.mint.wf()
    }
}

/// The 34-byte persisted layout of a state record: the flag as a single
/// `0`/`1` byte, then the mint address, then the proof byte.
pub open spec fn spec_encode(s: StateView) -> Seq<u8> {
    seq![if s.is_initialized { 1u8 } else { 0u8 }] + s.mint + seq![s.bump]
}

impl State {
    /// Serializes the record into its persisted 34-byte layout.
    pub fn encode(&self) -> (r: Vec<u8>)
        requires
            self.wf(),
        ensures
            r@ == spec_encode(self@),
            r@.len() == State::LEN,
    {
        let mut out: Vec<u8> = Vec::new();
        out.push(if self.is_initialized { 1 } else { 0 });
        let mut i: usize = 0;
        while i < self.mint.bytes.len()
            invariant
                i <= self.mint.bytes.len(),
                out@ =~= seq![if self.is_initialized { 1u8 } else { 0u8 }]
                    + self.mint.bytes@.subrange(0, i as int),
            decreases self.mint.bytes.len() - i,
        {
            out.push(self.mint.bytes[i]);
            i += 1;
        }
        out.push(self.bump);
        proof {
            assert(out@ =~= spec_encode(self@));
        }
        out
    }

    /// Parses a persisted record. It accepts exactly the byte strings that
    /// `encode` produces: 34 bytes whose flag byte is `0` or `1`.
    pub fn decode(bytes: &Vec<u8>) -> (r: Option<State>)
        ensures
            match r {
                Some(s) => {
                    &&& s.wf()
                    &&& spec_encode(s@) == bytes@
                    &&& s@.is_initialized == (bytes@[0] == 1)
                    &&& s@.mint == bytes@.subrange(1, 33)
                    &&& s@.bump == bytes@[33]
                },
                None => !(bytes@.len() == State::LEN && (bytes@[0] == 0 || bytes@[0] == 1)),
            },
    {
        if bytes.len() != State::LEN {
            return None;
        }
        let flag = bytes[0];
        if flag > 1 {
            return None;
        }
        let mut mint_bytes: Vec<u8> = Vec::new();
        let mut i: usize = 1;
        while i < 33
            invariant
                1 <= i <= 33,
                bytes@.len() == 34,
                mint_bytes@ =~= bytes@.subrange(1, i as int),
            decreases 33 - i,
        {
            mint_bytes.push(bytes[i]);
            i += 1;
        }
        let s = State {
            is_initialized: flag == 1,
            mint: Address { bytes: mint_bytes },
            bump: bytes[33],
        };
        proof {
            assert(spec_encode(s@) =~= bytes@);
        }
        Some(s)
    }
}

/// The persisted layout is lossless: decoding what `encode` wrote gives back
/// a record with exactly the original fields.
pub proof fn lemma_encode_decode_roundtrip(s: StateView, t: StateView)
    requires
        s.mint.len() == 32,
        t.mint.len() == 32,
        spec_encode(s) == spec_encode(t),
    ensures
        s == t,
{
    assert(spec_encode(s)[0] == if s.is_initialized { 1u8 } else { 0u8 });
    assert(spec_encode(t)[0] == if t.is_initialized { 1u8 } else { 0u8 });
    assert(s.is_initialized == t.is_initialized);
    assert(s.mint =~= spec_encode(s).subrange(1, 33));
    assert(t.mint =~= spec_encode(t).subrange(1, 33));
    assert(s.mint == t.mint);
    assert(spec_encode(s)[33] == s.bump);
    assert(spec_encode(t)[33] == t.bump);
    assert(s.bump == t.bump);
    assert(s =~= t);
}

} // verus!
