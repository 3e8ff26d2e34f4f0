//! The versioned byte format of saved plugin state.
//!
//! A payload is a sequence of little-endian 32-bit words: the magic marker,
//! the format version, the number of parameter values, the number of meter
//! values, then the parameter values and the meter values. Values are IEEE-754
//! single-precision numbers and travel here as their bit patterns.

use vstd::prelude::*;

verus! {

/// The magic marker `TFST`, read as a little-endian word.
pub const STATE_MAGIC: u32 = 0x5453_4654;

/// The version written by this library.
pub const STATE_VERSION: u32 = 3;

/// The older version that is still read; it may hold fewer parameter values.
pub const LEGACY_STATE_VERSION: u32 = 2;

/// Number of parameter values in a current payload.
pub const STATE_VALUE_COUNT: usize = 51;

/// Number of meter values in every payload.
pub const METER_COUNT: usize = 9;

/// Why a payload could not be read.
#[derive(Debug, Copy, Clone, PartialEq, Eq, Structural)]
pub enum StateDecodeError {
    /// The payload ended before a word it announces.
    Io,
    /// The header does not describe a payload of this format.
    InvalidPayload,
    /// The format version is not one this library reads.
    UnsupportedVersion,
    /// A value is an infinity or a NaN.
    NonFiniteValue,
}

impl StateDecodeError {
    /// The message shown to the host.
    pub open spec fn spec_message(self) -> Seq<char> {
        match self {
            StateDecodeError::Io => "Could not read Tension Field plugin state"@,
            StateDecodeError::InvalidPayload => "Invalid Tension Field state payload"@,
            StateDecodeError::UnsupportedVersion => "Unsupported Tension Field state version"@,
            StateDecodeError::NonFiniteValue => "Invalid Tension Field state payload"@,
        }
    }

    /// The message shown to the host.
    pub fn as_message(self) -> (r: &'static str)
        ensures
            r@ == self.spec_message(),
    {
        match self {
            StateDecodeError::Io => "Could not read Tension Field plugin state",
            StateDecodeError::InvalidPayload => "Invalid Tension Field state payload",
            StateDecodeError::UnsupportedVersion => "Unsupported Tension Field state version",
            StateDecodeError::NonFiniteValue => "Invalid Tension Field state payload",
        }
    }
}

/// A saved state: parameter values and meter values as single-precision bit patterns.
#[derive(Debug, Clone)]
pub struct PluginStateSnapshot {
    /// Parameter values in the order of the parameter table.
    pub param_values: Vec<u32>,
    /// Meter values, restored for visual continuity.
    pub meter_values: Vec<u32>,
}

/// The single-precision number with bit pattern `w` is finite: its exponent
/// field is not all ones.
pub open spec fn is_finite_bits(w: u32) -> bool {
    (w >> 23u32) & 0xffu32 != 0xffu32
}

/// The word whose little-endian bytes are `b0, b1, b2, b3`.
pub open spec fn le_word(b0: u8, b1: u8, b2: u8, b3: u8) -> u32 {
    b0 as u32 | (b1 as u32) << 8u32 | (b2 as u32) << 16u32 | (b3 as u32) << 24u32
}

/// The little-endian bytes of `w`.
pub open spec fn word_bytes(w: u32) -> Seq<u8> {
    seq![
        (w & 0xffu32) as u8,
        ((w >> 8u32) & 0xffu32) as u8,
        ((w >> 16u32) & 0xffu32) as u8,
        ((w >> 24u32) & 0xffu32) as u8,
    ]
}

/// The words `ws` laid out one after another, little-endian.
pub open spec fn encode_words(ws: Seq<u32>) -> Seq<u8>
    decreases ws.len(),
{
    if ws.len() == 0 {
        Seq::empty()
    } else {
        encode_words(ws.drop_last()) + word_bytes(ws.last())
    }
}

/// The `k`-th little-endian word of `b`.
pub open spec fn word_at(b: Seq<u8>, k: int) -> u32 {
    le_word(b[4 * k], b[4 * k + 1], b[4 * k + 2], b[4 * k + 3])
}

/// Read `count` words from word `first` on, stopping at the first that is
/// missing (`Io`) or not finite (`NonFiniteValue`).
pub open spec fn scan_words(b: Seq<u8>, first: int, count: nat) -> Result<Seq<u32>, StateDecodeError>
    decreases count,
{
    if count == 0 {
        Ok(Seq::empty())
    } else if b.len() < 4 * first + 4 {
        Err(StateDecodeError::Io)
    } else if !is_finite_bits(word_at(b, first)) {
        Err(StateDecodeError::NonFiniteValue)
    } else {
        match scan_words(b, first + 1, (count - 1) as nat) {
            Ok(rest) => Ok(seq![word_at(b, first)] + rest),
            Err(e) => Err(e),
        }
    }
}

/// The payload that `write_snapshot` produces.
pub open spec fn spec_encode(params: Seq<u32>, meters: Seq<u32>) -> Seq<u8> {
    encode_words(
        seq![STATE_MAGIC, STATE_VERSION, STATE_VALUE_COUNT as u32, METER_COUNT as u32] + params
            + meters,
    )
}

/// What reading `b` gives: the parameter and meter values, or the first
/// problem met. A legacy payload may carry fewer parameter values; the rest
/// are taken from `defaults`.
pub open spec fn spec_decode(b: Seq<u8>, defaults: Seq<u32>) -> Result<
    (Seq<u32>, Seq<u32>),
    StateDecodeError,
> {
    if b.len() < 16 {
        Err(StateDecodeError::Io)
    } else {
        let magic = word_at(b, 0);
        let version = word_at(b, 1);
        let param_count = word_at(b, 2);
        let meter_count = word_at(b, 3);
        if magic != STATE_MAGIC || meter_count != METER_COUNT as u32 {
            Err(StateDecodeError::InvalidPayload)
        } else if version == STATE_VERSION && param_count != STATE_VALUE_COUNT as u32 {
            Err(StateDecodeError::InvalidPayload)
        } else if version == LEGACY_STATE_VERSION && param_count > STATE_VALUE_COUNT as u32 {
            Err(StateDecodeError::InvalidPayload)
        } else if version != STATE_VERSION && version != LEGACY_STATE_VERSION {
            Err(StateDecodeError::UnsupportedVersion)
        } else {
            let n = param_count as nat;
            match scan_words(b, 4, n) {
                Err(e) => Err(e),
                Ok(params) => match scan_words(b, 4 + n as int, METER_COUNT as nat) {
                    Err(e) => Err(e),
                    Ok(meters) => Ok(
                        (params + defaults.subrange(n as int, STATE_VALUE_COUNT as int), meters),
                    ),
                },
            }
        }
    }
}

proof fn lemma_le_word_of_bytes(w: u32)
    ensures
        le_word(word_bytes(w)[0], word_bytes(w)[1], word_bytes(w)[2], word_bytes(w)[3]) == w,
{
    let b0 = (w & 0xffu32) as u8;
    let b1 = ((w >> 8u32) & 0xffu32) as u8;
    let b2 = ((w >> 16u32) & 0xffu32) as u8;
    let b3 = ((w >> 24u32) & 0xffu32) as u8;
    assert(b0 as u32 | (b1 as u32) << 8u32 | (b2 as u32) << 16u32 | (b3 as u32) << 24u32 == w)
        by (bit_vector)
        requires
            b0 == (w & 0xffu32) as u8,
            b1 == ((w >> 8u32) & 0xffu32) as u8,
            b2 == ((w >> 16u32) & 0xffu32) as u8,
            b3 == ((w >> 24u32) & 0xffu32) as u8,
    ;
}

/// The encoding is four bytes per word, and each word reads back.
pub proof fn lemma_encode_words(ws: Seq<u32>)
    ensures
        encode_words(ws).len() == 4 * ws.len(),
        forall|k: int| 0 <= k < ws.len() ==> #[trigger] word_at(encode_words(ws), k) == ws[k],
    decreases ws.len(),
{
    if ws.len() > 0 {
        let init = ws.drop_last();
        lemma_encode_words(init);
        let e = encode_words(ws);
        let p = encode_words(init);
        assert forall|k: int| 0 <= k < ws.len() implies #[trigger] word_at(e, k) == ws[k] by {
            if k < init.len() {
                assert(word_at(p, k) == init[k]);
                assert(e[4 * k] == p[4 * k]);
                assert(e[4 * k + 1] == p[4 * k + 1]);
                assert(e[4 * k + 2] == p[4 * k + 2]);
                assert(e[4 * k + 3] == p[4 * k + 3]);
            } else {
                lemma_le_word_of_bytes(ws.last());
            }
        }
    }
}

/// Scanning finite words that are present yields them.
pub proof fn lemma_scan_present(b: Seq<u8>, ws: Seq<u32>, first: int, count: nat)
    requires
        0 <= first,
        first + count <= ws.len(),
        b.len() >= 4 * ws.len(),
        forall|k: int| 0 <= k < ws.len() ==> #[trigger] word_at(b, k) == ws[k],
        forall|k: int| first <= k < first + count ==> is_finite_bits(#[trigger] ws[k]),
    ensures
        scan_words(b, first, count) == Ok::<Seq<u32>, StateDecodeError>(
            ws.subrange(first, first + count),
        ),
    decreases count,
{
    if count > 0 {
        assert(word_at(b, first) == ws[first]);
        lemma_scan_present(b, ws, first + 1, (count - 1) as nat);
        assert(seq![ws[first]] + ws.subrange(first + 1, first + count) =~= ws.subrange(
            first,
            first + count,
        ));
    } else {
        assert(ws.subrange(first, first) =~= Seq::<u32>::empty());
    }
}

/// Prefix the words `p` to a scan result.
pub open spec fn prepend(p: Seq<u32>, r: Result<Seq<u32>, StateDecodeError>) -> Result<
    Seq<u32>,
    StateDecodeError,
> {
    match r {
        Ok(rest) => Ok(p + rest),
        Err(e) => Err(e),
    }
}

/// Read the little-endian word at byte `pos`; `Io` when fewer than four bytes remain.
pub fn read_u32(bytes: &[u8], pos: usize) -> (r: Result<u32, StateDecodeError>)
    ensures
        pos + 4 <= bytes@.len() ==> r == Ok::<u32, StateDecodeError>(
            le_word(bytes@[pos as int], bytes@[pos + 1], bytes@[pos + 2], bytes@[pos + 3]),
        ),
        pos + 4 > bytes@.len() ==> r == Err::<u32, StateDecodeError>(StateDecodeError::Io),
{
    if pos > bytes.len() || bytes.len() - pos < 4 {
        return Err(StateDecodeError::Io);
    }
    let b0 = bytes[pos];
    let b1 = bytes[pos + 1];
    let b2 = bytes[pos + 2];
    let b3 = bytes[pos + 3];
    Ok(b0 as u32 | (b1 as u32) << 8u32 | (b2 as u32) << 16u32 | (b3 as u32) << 24u32)
}

/// Whether the single-precision number with bit pattern `w` is finite.
pub fn is_finite_word(w: u32) -> (r: bool)
    ensures
        r == is_finite_bits(w),
{
    (w >> 23u32) & 0xffu32 != 0xffu32
}

/// Read `count` words from word `first` on, failing on the first that is
/// missing or not finite.
fn read_words(bytes: &[u8], first: usize, count: usize) -> (r: Result<Vec<u32>, StateDecodeError>)
    requires
        first + count <= 0x1000_0000,
    ensures
        match r {
            Ok(v) => scan_words(bytes@, first as int, count as nat) == Ok::<
                Seq<u32>,
                StateDecodeError,
            >(v@),
            Err(e) => scan_words(bytes@, first as int, count as nat) == Err::<
                Seq<u32>,
                StateDecodeError,
            >(e),
        },
{
    let mut out: Vec<u32> = Vec::new();
    let mut k: usize = 0;
    proof {
        assert(out@ + Seq::<u32>::empty() =~= out@);
        let r0 = scan_words(bytes@, first as int, count as nat);
        assert(prepend(out@, r0) == r0) by {
            match r0 {
                Ok(x) => {
                    assert(Seq::<u32>::empty() + x =~= x);
                },
                Err(_) => {},
            }
        }
    }
    while k < count
        invariant
            k <= count,
            first + count <= 0x1000_0000,
            scan_words(bytes@, first as int, count as nat) == prepend(
                out@,
                scan_words(bytes@, (first + k) as int, (count - k) as nat),
            ),
        decreases count - k,
    {
        let at = first + k;
        let w = match read_u32(bytes, 4 * at) {
            Ok(w) => w,
            Err(e) => {
                return Err(e);
            },
        };
        if !is_finite_word(w) {
            return Err(StateDecodeError::NonFiniteValue);
        }
        proof {
            let rest = scan_words(bytes@, (first + k + 1) as int, (count - k - 1) as nat);
            assert(w == word_at(bytes@, at as int));
            match rest {
                Ok(x) => {
                    assert(out@ + (seq![w] + x) =~= out@.push(w) + x);
                },
                Err(_) => {},
            }
        }
        out.push(w);
        k += 1;
    }
    proof {
        assert(out@ + Seq::<u32>::empty() =~= out@);
    }
    Ok(out)
}

/// Append the little-endian bytes of `w`.
fn push_word(out: &mut Vec<u8>, w: u32)
    ensures
        final(out)@ == old(out)@ + word_bytes(w),
{
    out.push((w & 0xffu32) as u8);
    out.push(((w >> 8u32) & 0xffu32) as u8);
    out.push(((w >> 16u32) & 0xffu32) as u8);
    out.push(((w >> 24u32) & 0xffu32) as u8);
    assert(final(out)@ =~= old(out)@ + word_bytes(w));
}

/// Lay out words one after another, little-endian.
fn encode_word_vec(ws: &Vec<u32>) -> (r: Vec<u8>)
    ensures
        r@ == encode_words(ws@),
{
    let mut out: Vec<u8> = Vec::new();
    let mut k: usize = 0;
    assert(ws@.subrange(0, 0) =~= Seq::<u32>::empty());
    while k < ws.len()
        invariant
            k <= ws@.len(),
            out@ == encode_words(ws@.subrange(0, k as int)),
        decreases ws@.len() - k,
    {
        push_word(&mut out, ws[k]);
        proof {
            assert(ws@.subrange(0, k + 1).drop_last() =~= ws@.subrange(0, k as int));
        }
        k += 1;
    }
    assert(ws@.subrange(0, ws@.len() as int) =~= ws@);
    out
}

/// Serialise a snapshot in the current format.
pub fn write_snapshot(snapshot: &PluginStateSnapshot) -> (r: Vec<u8>)
    requires
        snapshot.param_values@.len() == STATE_VALUE_COUNT,
        snapshot.meter_values@.len() == METER_COUNT,
    ensures
        r@ == spec_encode(snapshot.param_values@, snapshot.meter_values@),
{
    let mut words: Vec<u32> = Vec::new();
    words.push(STATE_MAGIC);
    words.push(STATE_VERSION);
    words.push(STATE_VALUE_COUNT as u32);
    words.push(METER_COUNT as u32);
    let ghost header = words@;
    let mut k: usize = 0;
    while k < snapshot.param_values.len()
        invariant
            k <= snapshot.param_values@.len(),
            words@ == header + snapshot.param_values@.subrange(0, k as int),
        decreases snapshot.param_values@.len() - k,
    {
        words.push(snapshot.param_values[k]);
        k += 1;
        assert(words@ =~= header + snapshot.param_values@.subrange(0, k as int));
    }
    assert(snapshot.param_values@.subrange(0, k as int) =~= snapshot.param_values@);
    let ghost with_params = words@;
    let mut m: usize = 0;
    while m < snapshot.meter_values.len()
        invariant
            m <= snapshot.meter_values@.len(),
            words@ == with_params + snapshot.meter_values@.subrange(0, m as int),
        decreases snapshot.meter_values@.len() - m,
    {
        words.push(snapshot.meter_values[m]);
        m += 1;
        assert(words@ =~= with_params + snapshot.meter_values@.subrange(0, m as int));
    }
    assert(snapshot.meter_values@.subrange(0, m as int) =~= snapshot.meter_values@);
    assert(header =~= seq![
        STATE_MAGIC,
        STATE_VERSION,
        STATE_VALUE_COUNT as u32,
        METER_COUNT as u32,
    ]);
    encode_word_vec(&words)
}

/// Read a payload. Parameter values that a legacy payload lacks come from
/// `defaults`, given in the order of the parameter table.
pub fn read_snapshot(bytes: &[u8], defaults: &[u32]) -> (r: Result<
    PluginStateSnapshot,
    StateDecodeError,
>)
    requires
        defaults@.len() == STATE_VALUE_COUNT,
    ensures
        match r {
            Ok(s) => spec_decode(bytes@, defaults@) == Ok::<
                (Seq<u32>, Seq<u32>),
                StateDecodeError,
            >((s.param_values@, s.meter_values@)),
            Err(e) => spec_decode(bytes@, defaults@) == Err::<
                (Seq<u32>, Seq<u32>),
                StateDecodeError,
            >(e),
        },
{
    let magic = match read_u32(bytes, 0) {
        Ok(w) => w,
        Err(e) => {
            return Err(e);
        },
    };
    let version = match read_u32(bytes, 4) {
        Ok(w) => w,
        Err(e) => {
            return Err(e);
        },
    };
    let param_count = match read_u32(bytes, 8) {
        Ok(w) => w,
        Err(e) => {
            return Err(e);
        },
    };
    let meter_count = match read_u32(bytes, 12) {
        Ok(w) => w,
        Err(e) => {
            return Err(e);
        },
    };
    if magic != STATE_MAGIC || meter_count != METER_COUNT as u32 {
        return Err(StateDecodeError::InvalidPayload);
    }
    if version == STATE_VERSION && param_count != STATE_VALUE_COUNT as u32 {
        return Err(StateDecodeError::InvalidPayload);
    }
    if version == LEGACY_STATE_VERSION && param_count > STATE_VALUE_COUNT as u32 {
        return Err(StateDecodeError::InvalidPayload);
    }
    if version != STATE_VERSION && version != LEGACY_STATE_VERSION {
        return Err(StateDecodeError::UnsupportedVersion);
    }
    let n = param_count as usize;
    let mut param_values = match read_words(bytes, 4, n) {
        Ok(v) => v,
        Err(e) => {
            return Err(e);
        },
    };
    let meter_values = match read_words(bytes, 4 + n, METER_COUNT) {
        Ok(v) => v,
        Err(e) => {
            return Err(e);
        },
    };
    let ghost read = param_values@;
    let mut k: usize = n;
    while k < STATE_VALUE_COUNT
        invariant
            n <= k <= STATE_VALUE_COUNT,
            defaults@.len() == STATE_VALUE_COUNT,
            param_values@ == read + defaults@.subrange(n as int, k as int),
        decreases STATE_VALUE_COUNT - k,
    {
        param_values.push(defaults[k]);
        k += 1;
        assert(param_values@ =~= read + defaults@.subrange(n as int, k as int));
    }
    Ok(PluginStateSnapshot { param_values, meter_values })
}

/// Writing a snapshot of finite values and reading it back gives the same
/// values, whatever the defaults.
pub proof fn lemma_snapshot_round_trip(params: Seq<u32>, meters: Seq<u32>, defaults: Seq<u32>)
    requires
        params.len() == STATE_VALUE_COUNT,
        meters.len() == METER_COUNT,
        defaults.len() == STATE_VALUE_COUNT,
        forall|k: int| 0 <= k < params.len() ==> is_finite_bits(#[trigger] params[k]),
        forall|k: int| 0 <= k < meters.len() ==> is_finite_bits(#[trigger] meters[k]),
    ensures
        spec_decode(spec_encode(params, meters), defaults) == Ok::<
            (Seq<u32>, Seq<u32>),
            StateDecodeError,
        >((params, meters)),
{
    lemma_legacy_payload_migrates(params, meters, defaults, STATE_VERSION);
    assert(defaults.subrange(STATE_VALUE_COUNT as int, STATE_VALUE_COUNT as int) =~= Seq::<
        u32,
    >::empty());
    assert(params + Seq::<u32>::empty() =~= params);
}

/// A payload announcing `params.len()` parameter values, in the legacy or the
/// current version where that count is allowed, reads back as those values
/// followed by the defaults of the parameters it lacks.
pub proof fn lemma_legacy_payload_migrates(
    params: Seq<u32>,
    meters: Seq<u32>,
    defaults: Seq<u32>,
    version: u32,
)
    requires
        version == LEGACY_STATE_VERSION || (version == STATE_VERSION && params.len()
            == STATE_VALUE_COUNT),
        params.len() <= STATE_VALUE_COUNT,
        meters.len() == METER_COUNT,
        defaults.len() == STATE_VALUE_COUNT,
        forall|k: int| 0 <= k < params.len() ==> is_finite_bits(#[trigger] params[k]),
        forall|k: int| 0 <= k < meters.len() ==> is_finite_bits(#[trigger] meters[k]),
    ensures
        spec_decode(
            encode_words(
                seq![STATE_MAGIC, version, params.len() as u32, METER_COUNT as u32] + params
                    + meters,
            ),
            defaults,
        ) == Ok::<(Seq<u32>, Seq<u32>), StateDecodeError>(
            (params + defaults.subrange(params.len() as int, STATE_VALUE_COUNT as int), meters),
        ),
{
    let header = seq![STATE_MAGIC, version, params.len() as u32, METER_COUNT as u32];
    let ws = header + params + meters;
    let n = params.len();
    lemma_encode_words(ws);
    let b = encode_words(ws);
    assert(word_at(b, 0) == ws[0]);
    assert(word_at(b, 1) == ws[1]);
    assert(word_at(b, 2) == ws[2]);
    assert(word_at(b, 3) == ws[3]);
    assert forall|k: int| 4 <= k < 4 + n + METER_COUNT implies is_finite_bits(#[trigger] ws[k]) by {
        if k < 4 + n {
            assert(ws[k] == params[k - 4]);
        } else {
            assert(ws[k] == meters[k - 4 - n]);
        }
    }
    lemma_scan_present(b, ws, 4, n);
    lemma_scan_present(b, ws, 4 + n as int, METER_COUNT as nat);
    assert(ws.subrange(4, 4 + n as int) =~= params);
    assert(ws.subrange(4 + n as int, 4 + n + METER_COUNT as int) =~= meters);
}

} // verus!
