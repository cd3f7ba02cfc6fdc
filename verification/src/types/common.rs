//! Labels and tags, and the filter that selects servers by label.

use vstd::prelude::*;

verus! {

/// A list of labels as the wire format nests it.
#[derive(Debug, Clone)]
pub struct Labels {
    pub label: Vec<Label>,
}

/// One key with its value.
#[derive(Debug, Clone)]
pub struct Label {
    pub key: String,
    pub value: String,
}

impl Default for Labels {
    fn default() -> (labels: Labels)
        ensures
            labels.label@.len() == 0,
    {
        Labels { label: Vec::new() }
    }
}

impl Labels {
    /// No labels.
    pub fn new() -> (labels: Labels)
        ensures
            labels.label@.len() == 0,
    {
        Labels { label: Vec::new() }
    }

    /// The same labels followed by `key` with `value`.
    pub fn with(self, key: &str, value: &str) -> (labels: Labels)
        ensures
            labels.label@.len() == self.label@.len() + 1,
            labels.label@.drop_last() == self.label@,
            labels.label@.last().key@ == key@,
            labels.label@.last().value@ == value@,
    {
        let mut labels = self;
        labels.label.push(Label { key: String::from_str(key), value: String::from_str(value) });
        assert(labels.label@.drop_last() =~= self.label@);
        labels
    }
}

/// A list of tags as the wire format nests it.
#[derive(Debug, Default)]
pub struct Tags {
    pub tag: Vec<String>,
}

/// Bytes that percent-encoding leaves as they are: ASCII letters and digits,
/// and `-`, `.`, `_`, `~`.
pub open spec fn is_unreserved(byte: u8) -> bool {
    ||| 0x30 <= byte <= 0x39
    ||| 0x41 <= byte <= 0x5a
    ||| 0x61 <= byte <= 0x7a
    ||| byte == 0x2d
    ||| byte == 0x2e
    ||| byte == 0x5f
    ||| byte == 0x7e
}

/// The upper-case hexadecimal digit for a value below 16.
pub open spec fn hex_digit(nibble: u8) -> char {
    if nibble < 10 {
        (0x30 + nibble) as u8 as char
    } else {
        (0x41 + nibble - 10) as u8 as char
    }
}

/// One byte, percent-encoded: itself if unreserved, else `%` and its two
/// hexadecimal digits, high one first.
pub open spec fn percent_encoded_byte(byte: u8) -> Seq<char> {
    if is_unreserved(byte) {
        seq![byte as char]
    } else {
        seq!['%', hex_digit(byte / 16), hex_digit(byte % 16)]
    }
}

/// The bytes, each percent-encoded, in order.
pub open spec fn percent_encoded_bytes(bytes: Seq<u8>) -> Seq<char>
    decreases bytes.len(),
{
    if bytes.len() == 0 {
        Seq::empty()
    } else {
        percent_encoded_bytes(bytes.drop_last()) + percent_encoded_byte(bytes.last())
    }
}

/// A text, percent-encoded: the bytes of its UTF-8 form, each encoded.
pub open spec fn percent_encoded(text: Seq<char>) -> Seq<char> {
    percent_encoded_bytes(vstd::utf8::encode_utf8(text))
}

/// `urlencoding::encode`, as an owned string. The crate walks the UTF-8
/// bytes of `text`, copies the unreserved ones and writes every other as `%`
/// and two upper-case hexadecimal digits.
#[verifier::external_body]
fn percent_encode(text: &str) -> (out: String)
    ensures
        out@ == percent_encoded(text@),
{
    urlencoding::encode(text).into_owned()
}

/// Characters that a percent-encoded text is made of.
pub open spec fn is_encoded_char(c: char) -> bool {
    c == '%' || ((c as u32) < 128 && is_unreserved(c as u8))
}

/// Percent-encoded bytes hold nothing but `%` and unreserved characters.
pub proof fn lemma_percent_encoded_bytes_are_plain(bytes: Seq<u8>)
    ensures
        forall|i: int|
            0 <= i < percent_encoded_bytes(bytes).len() ==> is_encoded_char(
                #[trigger] percent_encoded_bytes(bytes)[i],
            ),
    decreases bytes.len(),
{
    if bytes.len() > 0 {
        lemma_percent_encoded_bytes_are_plain(bytes.drop_last());
        let byte = bytes.last();
        let tail = percent_encoded_byte(byte);
        assert forall|k: int| 0 <= k < tail.len() implies is_encoded_char(#[trigger] tail[k]) by {
            if is_unreserved(byte) {
                assert((byte as char) as u8 == byte);
            } else {
                let high: u8 = byte / 16;
                let low: u8 = byte % 16;
                assert(is_encoded_char(hex_digit(high)));
                assert(is_encoded_char(hex_digit(low)));
            }
        }
        let head = percent_encoded_bytes(bytes.drop_last());
        assert forall|i: int| 0 <= i < percent_encoded_bytes(bytes).len() implies is_encoded_char(
            #[trigger] percent_encoded_bytes(bytes)[i],
        ) by {
            if i < head.len() {
                assert(percent_encoded_bytes(bytes)[i] == head[i]);
            } else {
                assert(percent_encoded_bytes(bytes)[i] == tail[i - head.len()]);
            }
        }
    }
}

/// A percent-encoded text holds nothing but `%` and unreserved characters:
/// in particular neither `&` nor `=`, so that it can stand in a query string
/// without being taken apart.
pub proof fn lemma_percent_encoded_is_plain(text: Seq<char>)
    ensures
        forall|i: int|
            0 <= i < percent_encoded(text).len() ==> is_encoded_char(
                #[trigger] percent_encoded(text)[i],
            ),
        !percent_encoded(text).contains('&'),
        !percent_encoded(text).contains('='),
{
    lemma_percent_encoded_bytes_are_plain(vstd::utf8::encode_utf8(text));
    assert(!is_encoded_char('&'));
    assert(!is_encoded_char('='));
}

/// The characters of each string in `items`.
pub open spec fn texts(items: Seq<String>) -> Seq<Seq<char>> {
    items.map_values(|s: String| s@)
}

/// Query string for a list of already encoded label expressions:
/// `label=` in front of each, `&` between them.
pub open spec fn joined_params(encoded: Seq<Seq<char>>) -> Seq<char>
    decreases encoded.len(),
{
    if encoded.len() == 0 {
        Seq::empty()
    } else if encoded.len() == 1 {
        "label="@ + encoded[0]
    } else {
        joined_params(encoded.drop_last()) + "&"@ + "label="@ + encoded.last()
    }
}

/// Joins already encoded label expressions into a query string.
pub fn join_label_params(encoded: &Vec<String>) -> (out: String)
    ensures
        out@ == joined_params(texts(encoded@)),
{
    let mut out = String::new();
    let mut i: usize = 0;
    proof {
        assert(texts(encoded@).take(0) =~= Seq::<Seq<char>>::empty());
    }
    while i < encoded.len()
        invariant
            i <= encoded.len(),
            out@ == joined_params(texts(encoded@).take(i as int)),
        decreases encoded.len() - i,
    {
        let ghost before = texts(encoded@).take(i as int);
        let ghost after = texts(encoded@).take(i + 1);
        proof {
            assert(after.drop_last() =~= before);
            assert(after.last() == encoded@[i as int]@);
        }
        if i > 0 {
            out.append("&");
        }
        out.append("label=");
        out.append(encoded[i].as_str());
        proof {
            if i == 0 {
                assert(out@ =~= "label="@ + after[0]);
            } else {
                assert(out@ =~= joined_params(before) + "&"@ + "label="@ + after.last());
            }
        }
        i += 1;
    }
    proof {
        assert(texts(encoded@).take(i as int) =~= texts(encoded@));
    }
    out
}

/// Selects servers by label: a list of `key` or `key=value` expressions.
#[derive(Debug)]
pub struct LabelFilter {
    labels: Vec<String>,
}

impl View for LabelFilter {
    type V = Seq<Seq<char>>;

    closed spec fn view(&self) -> Seq<Seq<char>> {
        texts(self.labels@)
    }
}

impl Default for LabelFilter {
    fn default() -> (filter: LabelFilter)
        ensures
            filter@.len() == 0,
    {
        LabelFilter { labels: Vec::new() }
    }
}

impl LabelFilter {
    /// A filter without expressions, which selects everything.
    pub fn new() -> (filter: LabelFilter)
        ensures
            filter@.len() == 0,
    {
        LabelFilter { labels: Vec::new() }
    }

    /// The same filter followed by `key=value`.
    pub fn with(self, key: &str, value: &str) -> (filter: LabelFilter)
        ensures
            filter@ == self@.push(key@ + "="@ + value@),
    {
        let mut filter = self;
        let _ = filter.add_label_value(key, value);
        filter
    }

    /// Appends the expression `key`, which selects by the key alone.
    pub fn add_label(&mut self, key: &str) -> (filter: &mut LabelFilter)
        ensures
            filter@ == old(self)@.push(key@),
            *final(self) == *final(filter),
    {
        self.labels.push(String::from_str(key));
        assert(texts(self.labels@) =~= texts(old(self).labels@).push(key@));
        self
    }

    /// Appends the expression `key=value`.
    pub fn add_label_value(&mut self, key: &str, value: &str) -> (filter: &mut LabelFilter)
        ensures
            filter@ == old(self)@.push(key@ + "="@ + value@),
            *final(self) == *final(filter),
    {
        let mut expression = String::from_str(key);
        expression.append("=");
        expression.append(value);
        assert(expression@ =~= key@ + "="@ + value@);
        self.labels.push(expression);
        assert(texts(self.labels@) =~= texts(old(self).labels@).push(key@ + "="@ + value@));
        self
    }

    /// Query string of the filter: each expression percent-encoded behind
    /// `label=`, joined by `&`; empty for an empty filter.
    pub fn to_query_params(&self) -> (out: String)
        ensures
            out@ == joined_params(self@.map_values(|l: Seq<char>| percent_encoded(l))),
    {
        let mut encoded: Vec<String> = Vec::new();
        let mut i: usize = 0;
        while i < self.labels.len()
            invariant
                i <= self.labels.len(),
                encoded@.len() == i,
                forall|k: int|
                    0 <= k < i ==> (#[trigger] encoded@[k])@ == percent_encoded(self.labels@[k]@),
            decreases self.labels.len() - i,
        {
            encoded.push(percent_encode(self.labels[i].as_str()));
            i += 1;
        }
        assert(texts(encoded@) =~= self@.map_values(|l: Seq<char>| percent_encoded(l)));
        join_label_params(&encoded)
    }
}

} // verus!
