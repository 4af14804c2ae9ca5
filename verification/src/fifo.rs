//! Pacing of the FIFO output.

use vstd::prelude::*;
use vstd::string::StringSliceAdditionalSpecFns;

verus! {

/// The formats of the FIFO output.
#[derive(Clone, Copy, Debug, PartialEq, Eq, Structural)]
pub enum FifoFormat {
    /// The presence state and the distance on one line.
    Simple,
    /// One JSON object per line.
    Json,
}

/// The lower-case form of an ASCII letter; any other byte is itself.
pub open spec fn spec_ascii_lower(byte: u8) -> u8 {
    if 65 <= byte <= 90 {
        (byte + 32) as u8
    } else {
        byte
    }
}

/// Whether `text` is `word` but for the case of its ASCII letters. `word`
/// is given in lower case.
pub open spec fn spec_is_word(text: Seq<u8>, word: Seq<u8>) -> bool {
    text.len() == word.len() && forall|i: int|
        0 <= i < text.len() ==> spec_ascii_lower(#[trigger] text[i]) == word[i]
}

/// Whether `text` is `word` but for the case of its ASCII letters.
pub fn is_word(text: &[u8], word: &[u8]) -> (same: bool)
    ensures
        same == spec_is_word(text@, word@),
{
    if text.len() != word.len() {
        return false;
    }
    let mut i: usize = 0;
    while i < text.len()
        invariant
            i <= text@.len(),
            text@.len() == word@.len(),
            forall|k: int| 0 <= k < i ==> spec_ascii_lower(#[trigger] text@[k]) == word@[k],
        decreases text@.len() - i,
    {
        let byte = text[i];
        let lower = if 65 <= byte && byte <= 90 {
            byte + 32
        } else {
            byte
        };
        if lower != word[i] {
            return false;
        }
        i = i + 1;
    }
    true
}

/// The bytes of `simple`.
pub open spec fn simple_word() -> Seq<u8> {
    seq![115u8, 105u8, 109u8, 112u8, 108u8, 101u8]
}

/// The bytes of `json`.
pub open spec fn json_word() -> Seq<u8> {
    seq![106u8, 115u8, 111u8, 110u8]
}

impl FifoFormat {
    /// The format that `name` names: `simple` or `json`, in any case.
    pub fn from_name(name: &str) -> (format: Option<FifoFormat>)
        ensures
            format == (if spec_is_word(name.spec_bytes(), simple_word()) {
                Some(FifoFormat::Simple)
            } else if spec_is_word(name.spec_bytes(), json_word()) {
                Some(FifoFormat::Json)
            } else {
                None
            }),
    {
        let simple: [u8; 6] = [115, 105, 109, 112, 108, 101];
        let json: [u8; 4] = [106, 115, 111, 110];
        assert(simple@ =~= simple_word());
        assert(json@ =~= json_word());
        let bytes = name.as_bytes();
        if is_word(bytes, simple.as_slice()) {
            Some(FifoFormat::Simple)
        } else if is_word(bytes, json.as_slice()) {
            Some(FifoFormat::Json)
        } else {
            None
        }
    }
}

/// Paces the writes to the FIFO.
#[derive(Clone, Copy, Debug, PartialEq, Eq, Structural)]
pub struct FifoWriter {
    /// Least time between two writes in milliseconds; 0 writes every time.
    pub interval_ms: u64,
    /// When the FIFO was last written.
    pub last_write: Option<u64>,
}

impl FifoWriter {
    pub fn new(interval_ms: u64) -> (writer: FifoWriter)
        ensures
            writer == (FifoWriter { interval_ms, last_write: None }),
    {
        FifoWriter { interval_ms, last_write: None }
    }

    /// Whether a write is due at `now_ms`: always without an interval; else
    /// the first time, and then whenever the interval has passed since the
    /// last write that was due.
    pub open spec fn spec_due(self, now_ms: u64) -> bool {
        self.interval_ms == 0 || match self.last_write {
            None => true,
            Some(last) => crate::host::elapsed_ms(last, now_ms) >= self.interval_ms,
        }
    }

    /// Decides whether to write now, and remembers the write if so.
    pub fn should_write(&mut self, now_ms: u64) -> (due: bool)
        ensures
            due == old(self).spec_due(now_ms),
            final(self).interval_ms == old(self).interval_ms,
            final(self).last_write == (if old(self).interval_ms != 0 && due {
                Some(now_ms)
            } else {
                old(self).last_write
            }),
    {
        if self.interval_ms == 0 {
            return true;
        }
        let due = match self.last_write {
            None => true,
            Some(last) => crate::host::elapsed_ms(last, now_ms) >= self.interval_ms,
        };
        if due {
            self.last_write = Some(now_ms);
        }
        due
    }
}

/// Whether a monitoring run goes on after `taken` measurements: without a
/// count for as long as the counter lasts, with one until it is reached.
#[verifier::allow_in_spec]
pub fn measurements_left(count: Option<u32>, taken: u32) -> bool
    returns
        (match count {
            Some(total) => taken < total,
            None => taken < u32::MAX,
        }),
{
    match count {
        Some(total) => taken < total,
        None => taken < u32::MAX,
    }
}

} // verus!
