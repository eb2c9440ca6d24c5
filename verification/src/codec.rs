use vstd::prelude::*;

verus! {

/// One demodulated sample: a 32-bit IEEE-754 amplitude proportional to
/// instantaneous frequency deviation, held as its raw bit pattern so that
/// the emitted byte layout is exact. The discriminator that produces the
/// float, and the rendering back to a float, live outside the library.
#[derive(Clone, Copy, Debug, PartialEq, Eq, Structural)]
pub struct DemodulatedSample {
    /// The bit pattern of the 32-bit float.
    pub bits: u32,
}

/// The four little-endian bytes of one 32-bit word.
///
/// The output stream is raw and unframed: tightly packed 32-bit words, four
/// bytes each, least-significant byte first. Defining the layout explicitly
/// (rather than reusing the host's in-memory layout) keeps the wire format
/// portable; it coincides with the native layout on little-endian hosts.
pub open spec fn le_bytes_of_word(w: u32) -> Seq<u8> {
    seq![
        (w & 0xff) as u8,
        ((w >> 8) & 0xff) as u8,
        ((w >> 16) & 0xff) as u8,
        ((w >> 24) & 0xff) as u8,
    ]
}

/// The 32-bit word four little-endian bytes decode to.
pub open spec fn word_of_le_bytes(b0: u8, b1: u8, b2: u8, b3: u8) -> u32 {
    (b0 as u32) | ((b1 as u32) << 8) | ((b2 as u32) << 16) | ((b3 as u32) << 24)
}

/// The byte stream a word sequence is emitted as: four bytes per word,
/// least-significant byte first, no framing and no length prefix.
pub open spec fn bytes_of_words(ws: Seq<u32>) -> Seq<u8> {
    Seq::new(ws.len() * 4, |i: int| le_bytes_of_word(ws[i / 4])[i % 4])
}

/// The word sequence a byte stream decodes to, four bytes per word.
pub open spec fn words_of_bytes(bs: Seq<u8>) -> Seq<u32> {
    Seq::new(
        bs.len() / 4,
        |k: int| word_of_le_bytes(bs[4 * k], bs[4 * k + 1], bs[4 * k + 2], bs[4 * k + 3]),
    )
}

/// The bit-pattern words of a demodulated sample sequence.
pub open spec fn demodulated_words(s: Seq<DemodulatedSample>) -> Seq<u32> {
    s.map_values(|d: DemodulatedSample| d.bits)
}

/// The demodulated samples carrying a given word sequence.
pub open spec fn samples_of_words(ws: Seq<u32>) -> Seq<DemodulatedSample> {
    ws.map_values(|w: u32| DemodulatedSample { bits: w })
}

/// Splitting one word into its little-endian bytes and reassembling them
/// gives the word back.
pub proof fn lemma_word_round_trip(w: u32)
    ensures
        word_of_le_bytes(
            (w & 0xff) as u8,
            ((w >> 8) & 0xff) as u8,
            ((w >> 16) & 0xff) as u8,
            ((w >> 24) & 0xff) as u8,
        ) == w,
{
    assert(((w & 0xff) as u8 as u32) | ((((w >> 8) & 0xff) as u8 as u32) << 8) | ((((w >> 16)
        & 0xff) as u8 as u32) << 16) | ((((w >> 24) & 0xff) as u8 as u32) << 24) == w)
        by (bit_vector);
}

/// Byte-layout round trip: the stream emitted for any word sequence is
/// exactly four bytes per word and decodes back to the same words.
pub proof fn lemma_words_round_trip(ws: Seq<u32>)
    ensures
        bytes_of_words(ws).len() == 4 * ws.len(),
        words_of_bytes(bytes_of_words(ws)) == ws,
{
    let bs = bytes_of_words(ws);
    assert forall|k: int| 0 <= k < ws.len() implies words_of_bytes(bs)[k] == ws[k] by {
        assert(bs[4 * k] == le_bytes_of_word(ws[k])[0]);
        assert(bs[4 * k + 1] == le_bytes_of_word(ws[k])[1]);
        assert(bs[4 * k + 2] == le_bytes_of_word(ws[k])[2]);
        assert(bs[4 * k + 3] == le_bytes_of_word(ws[k])[3]);
        lemma_word_round_trip(ws[k]);
    }
    assert(words_of_bytes(bs) =~= ws);
}

/// Byte-layout round trip at the sample level: the stream emitted for any
/// demodulated sequence of length `N` is exactly `4 * N` bytes and decodes
/// back to the original samples exactly.
pub proof fn lemma_demodulated_round_trip(s: Seq<DemodulatedSample>)
    ensures
        bytes_of_words(demodulated_words(s)).len() == 4 * s.len(),
        samples_of_words(words_of_bytes(bytes_of_words(demodulated_words(s)))) == s,
{
    lemma_words_round_trip(demodulated_words(s));
    assert(samples_of_words(demodulated_words(s)) =~= s);
}

/// Emit a word sequence as its raw byte stream: four bytes per word,
/// least-significant byte first, tightly packed.
pub fn encode_words(words: &Vec<u32>) -> (out: Vec<u8>)
    ensures
        out@.len() == 4 * words@.len(),
        out@ == bytes_of_words(words@),
{
    let mut out: Vec<u8> = Vec::new();
    let mut i: usize = 0;
    while i < words.len()
        invariant
            i <= words@.len(),
            out@.len() == 4 * i,
            forall|j: int| 0 <= j < out@.len() ==> out@[j] == bytes_of_words(words@)[j],
        decreases words@.len() - i,
    {
        let w: u32 = words[i];
        out.push((w & 0xff) as u8);
        out.push(((w >> 8) & 0xff) as u8);
        out.push(((w >> 16) & 0xff) as u8);
        out.push(((w >> 24) & 0xff) as u8);
        i = i + 1;
    }
    proof {
        assert(out@ =~= bytes_of_words(words@));
    }
    out
}

/// Decode a raw byte stream back into its 32-bit words. Returns the words
/// when the length is a whole number of words, and nothing otherwise.
pub fn decode_words(bytes: &Vec<u8>) -> (r: Option<Vec<u32>>)
    ensures
        bytes@.len() % 4 == 0 ==> (r matches Some(ws) && ws@ == words_of_bytes(bytes@)),
        bytes@.len() % 4 != 0 ==> r is None,
{
    if bytes.len() % 4 != 0 {
        return None;
    }
    let count: usize = bytes.len() / 4;
    let mut words: Vec<u32> = Vec::new();
    let mut k: usize = 0;
    while k < count
        invariant
            bytes@.len() % 4 == 0,
            bytes@.len() <= usize::MAX,
            count == bytes@.len() / 4,
            k <= count,
            words@.len() == k,
            forall|j: int| 0 <= j < k ==> words@[j] == words_of_bytes(bytes@)[j],
        decreases count - k,
    {
        proof {
            assert(4 * k + 3 < bytes@.len());
        }
        let b0: u32 = bytes[4 * k] as u32;
        let b1: u32 = bytes[4 * k + 1] as u32;
        let b2: u32 = bytes[4 * k + 2] as u32;
        let b3: u32 = bytes[4 * k + 3] as u32;
        words.push(b0 | (b1 << 8) | (b2 << 16) | (b3 << 24));
        k = k + 1;
    }
    proof {
        assert(words@ =~= words_of_bytes(bytes@));
    }
    Some(words)
}

/// Emit a demodulated sequence as its raw byte stream: one 32-bit float per
/// sample, four bytes each.
pub fn encode_demodulated(samples: &Vec<DemodulatedSample>) -> (out: Vec<u8>)
    ensures
        out@.len() == 4 * samples@.len(),
        out@ == bytes_of_words(demodulated_words(samples@)),
{
    let mut words: Vec<u32> = Vec::new();
    let mut i: usize = 0;
    while i < samples.len()
        invariant
            i <= samples@.len(),
            words@.len() == i,
            forall|j: int| 0 <= j < i ==> words@[j] == demodulated_words(samples@)[j],
        decreases samples@.len() - i,
    {
        words.push(samples[i].bits);
        i = i + 1;
    }
    proof {
        assert(words@ =~= demodulated_words(samples@));
    }
    encode_words(&words)
}

/// Decode a raw byte stream back into demodulated samples. Returns the
/// samples when the length is a whole number of them, and nothing otherwise.
pub fn decode_demodulated(bytes: &Vec<u8>) -> (r: Option<Vec<DemodulatedSample>>)
    ensures
        bytes@.len() % 4 == 0 ==> (r matches Some(s) && s@ == samples_of_words(
            words_of_bytes(bytes@),
        )),
        bytes@.len() % 4 != 0 ==> r is None,
{
    match decode_words(bytes) {
        None => None,
        Some(words) => {
            let mut out: Vec<DemodulatedSample> = Vec::new();
            let mut i: usize = 0;
            while i < words.len()
                invariant
                    i <= words@.len(),
                    out@.len() == i,
                    forall|j: int| 0 <= j < i ==> out@[j] == samples_of_words(words@)[j],
                decreases words@.len() - i,
            {
                out.push(DemodulatedSample { bits: words[i] });
                i = i + 1;
            }
            proof {
                assert(out@ =~= samples_of_words(words@));
            }
            Some(out)
        },
    }
}

} // verus!
