use vstd::prelude::*;

verus! {

/// A UTF-16 code unit in the high-surrogate range.
pub open spec fn is_high_surrogate(u: u16) -> bool {
    0xD800 <= u <= 0xDBFF
}

/// A UTF-16 code unit in the low-surrogate range.
pub open spec fn is_low_surrogate(u: u16) -> bool {
    0xDC00 <= u <= 0xDFFF
}

/// A UTF-16 code unit that is either half of a surrogate pair.
pub open spec fn is_surrogate(u: u16) -> bool {
    0xD800 <= u <= 0xDFFF
}

/// The scalar value that a surrogate pair stands for.
pub open spec fn pair_scalar(high: u16, low: u16) -> u32 {
    (0x10000 + (high - 0xD800) * 0x400 + (low - 0xDC00)) as u32
}

/// The UTF-16 encoding of one character: one unit below U+10000, else a
/// surrogate pair.
pub open spec fn encode_char(c: char) -> Seq<u16> {
    let v = c as u32;
    if v < 0x10000 {
        seq![v as u16]
    } else {
        seq![(0xD800 + (v - 0x10000) / 0x400) as u16, (0xDC00 + (v - 0x10000) % 0x400) as u16]
    }
}

/// The UTF-16 encoding of a sequence of characters.
pub open spec fn encode_utf16(cs: Seq<char>) -> Seq<u16>
    decreases cs.len(),
{
    if cs.len() == 0 {
        Seq::empty()
    } else {
        encode_char(cs[0]) + encode_utf16(cs.drop_first())
    }
}

/// Strict UTF-16 decoding: `None` when an unpaired surrogate occurs.
pub open spec fn decode_utf16(us: Seq<u16>) -> Option<Seq<char>>
    decreases us.len(),
{
    if us.len() == 0 {
        Some(Seq::empty())
    } else if !is_surrogate(us[0]) {
        match decode_utf16(us.drop_first()) {
            Some(rest) => Some(seq![us[0] as char] + rest),
            None => None,
        }
    } else if is_high_surrogate(us[0]) && us.len() >= 2 && is_low_surrogate(us[1]) {
        match decode_utf16(us.skip(2)) {
            Some(rest) => Some(seq![pair_scalar(us[0], us[1]) as char] + rest),
            None => None,
        }
    } else {
        None
    }
}

/// Lossy UTF-16 decoding: every unpaired surrogate becomes U+FFFD.
pub open spec fn decode_utf16_lossy(us: Seq<u16>) -> Seq<char>
    decreases us.len(),
{
    if us.len() == 0 {
        Seq::empty()
    } else if is_high_surrogate(us[0]) && us.len() >= 2 && is_low_surrogate(us[1]) {
        seq![pair_scalar(us[0], us[1]) as char] + decode_utf16_lossy(us.skip(2))
    } else if is_surrogate(us[0]) {
        seq!['\u{FFFD}'] + decode_utf16_lossy(us.drop_first())
    } else {
        seq![us[0] as char] + decode_utf16_lossy(us.drop_first())
    }
}

/// The characters that remain once every trailing NUL character is removed.
pub open spec fn trim_end_nul(cs: Seq<char>) -> Seq<char>
    decreases cs.len(),
{
    if cs.len() > 0 && cs.last() == '\0' {
        trim_end_nul(cs.drop_last())
    } else {
        cs
    }
}

/// The position of the first NUL unit, or the length when there is none.
pub open spec fn first_nul(us: Seq<u16>) -> nat
    decreases us.len(),
{
    if us.len() == 0 || us[0] == 0 {
        0
    } else {
        1 + first_nul(us.drop_first())
    }
}

/// The units of a NUL-terminated buffer that come before its first NUL.
pub open spec fn before_nul(us: Seq<u16>) -> Seq<u16> {
    us.take(first_nul(us) as int)
}

/// `first_nul` is the index of the first zero unit.
pub proof fn lemma_first_nul(us: Seq<u16>)
    ensures
        first_nul(us) <= us.len(),
        forall|j: int| 0 <= j < first_nul(us) ==> us[j] != 0,
        first_nul(us) < us.len() ==> us[first_nul(us) as int] == 0,
    decreases us.len(),
{
    if us.len() > 0 && us[0] != 0 {
        lemma_first_nul(us.drop_first());
        assert forall|j: int| 0 <= j < first_nul(us) implies us[j] != 0 by {
            if j > 0 {
                assert(us[j] == us.drop_first()[j - 1]);
            }
        }
    }
}

/// Any index that has only non-NUL units before it and a NUL at it is `first_nul`.
pub proof fn lemma_first_nul_unique(us: Seq<u16>, n: int)
    requires
        0 <= n < us.len(),
        us[n] == 0,
        forall|j: int| 0 <= j < n ==> us[j] != 0,
    ensures
        first_nul(us) == n,
    decreases us.len(),
{
    if n > 0 {
        assert(us[0] != 0);
        assert forall|j: int| 0 <= j < n - 1 implies us.drop_first()[j] != 0 by {
            assert(us.drop_first()[j] == us[j + 1]);
        }
        lemma_first_nul_unique(us.drop_first(), n - 1);
    }
}

/// Encoding distributes over concatenation.
pub proof fn lemma_encode_append(a: Seq<char>, b: Seq<char>)
    ensures
        encode_utf16(a + b) == encode_utf16(a) + encode_utf16(b),
    decreases a.len(),
{
    if a.len() == 0 {
        assert(a + b =~= b);
    } else {
        assert((a + b).drop_first() =~= a.drop_first() + b);
        lemma_encode_append(a.drop_first(), b);
        assert(encode_char(a[0]) + (encode_utf16(a.drop_first()) + encode_utf16(b))
            =~= (encode_char(a[0]) + encode_utf16(a.drop_first())) + encode_utf16(b));
    }
}

/// The encoding of a single character.
pub proof fn lemma_encode_single(c: char)
    ensures
        encode_utf16(seq![c]) == encode_char(c),
{
    assert(seq![c].drop_first() =~= Seq::<char>::empty());
    assert(encode_utf16(seq![c].drop_first()) =~= Seq::<u16>::empty());
    assert(encode_char(c) + Seq::<u16>::empty() =~= encode_char(c));
}

/// Decoding the encoding of a character followed by more units yields that
/// character followed by the decoding of the rest, both strictly and lossily.
proof fn lemma_decode_char_prefix(c: char, rest: Seq<u16>)
    ensures
        decode_utf16(encode_char(c) + rest) == (match decode_utf16(rest) {
            Some(r) => Some(seq![c] + r),
            None => None,
        }),
        decode_utf16_lossy(encode_char(c) + rest) == seq![c] + decode_utf16_lossy(rest),
{
    let v = c as u32;
    assert(v <= 0x10FFFF && !(0xD800 <= v <= 0xDFFF));
    let e = encode_char(c) + rest;
    if v < 0x10000 {
        let u = v as u16;
        assert(e[0] == u);
        assert(!is_surrogate(u));
        assert(!is_high_surrogate(u));
        assert(e.drop_first() =~= rest);
        assert((u as char) == c);
    } else {
        let h = (0xD800 + (v - 0x10000) / 0x400) as u16;
        let l = (0xDC00 + (v - 0x10000) % 0x400) as u16;
        assert(e[0] == h && e[1] == l);
        assert(is_high_surrogate(h));
        assert(is_low_surrogate(l));
        assert(e.skip(2) =~= rest);
        assert(pair_scalar(h, l) == v);
        assert((pair_scalar(h, l) as char) == c);
    }
}

/// Decoding undoes encoding: the UTF-16 form of any text decodes back to it.
pub proof fn lemma_decode_encode(cs: Seq<char>)
    ensures
        decode_utf16(encode_utf16(cs)) == Some(cs),
        decode_utf16_lossy(encode_utf16(cs)) == cs,
    decreases cs.len(),
{
    if cs.len() == 0 {
    } else {
        lemma_decode_encode(cs.drop_first());
        lemma_decode_char_prefix(cs[0], encode_utf16(cs.drop_first()));
        assert(seq![cs[0]] + cs.drop_first() =~= cs);
    }
}

/// When strict decoding succeeds, lossy decoding gives the same text, and
/// encoding that text gives back the units.
pub proof fn lemma_valid_decode(us: Seq<u16>)
    requires
        decode_utf16(us) is Some,
    ensures
        decode_utf16_lossy(us) == decode_utf16(us).unwrap(),
        encode_utf16(decode_utf16(us).unwrap()) == us,
    decreases us.len(),
{
    if us.len() == 0 {
    } else if !is_surrogate(us[0]) {
        lemma_valid_decode(us.drop_first());
        let c = us[0] as char;
        let cs = decode_utf16(us).unwrap();
        assert(cs =~= seq![c] + decode_utf16(us.drop_first()).unwrap());
        assert(cs.drop_first() =~= decode_utf16(us.drop_first()).unwrap());
        assert((c as u32) == us[0] as u32);
        assert(encode_char(c) =~= seq![us[0]]);
        assert(seq![us[0]] + us.drop_first() =~= us);
    } else {
        lemma_valid_decode(us.skip(2));
        let h = us[0];
        let l = us[1];
        let v = pair_scalar(h, l);
        let c = v as char;
        let cs = decode_utf16(us).unwrap();
        assert(0x10000 <= v <= 0x10FFFF);
        assert((c as u32) == v);
        assert(cs =~= seq![c] + decode_utf16(us.skip(2)).unwrap());
        assert(cs.drop_first() =~= decode_utf16(us.skip(2)).unwrap());
        assert((v - 0x10000) / 0x400 == h - 0xD800);
        assert((v - 0x10000) % 0x400 == l - 0xDC00);
        assert(encode_char(c) =~= seq![h, l]);
        assert(seq![h, l] + us.skip(2) =~= us);
    }
}

/// The encoding of text without NUL characters holds no NUL unit.
pub proof fn lemma_encode_no_nul(cs: Seq<char>)
    requires
        forall|i: int| 0 <= i < cs.len() ==> cs[i] != '\0',
    ensures
        forall|j: int| 0 <= j < encode_utf16(cs).len() ==> encode_utf16(cs)[j] != 0,
    decreases cs.len(),
{
    if cs.len() > 0 {
        lemma_encode_no_nul(cs.drop_first());
        let c = cs[0];
        assert(c != '\0');
        let v = c as u32;
        vstd::utf8::char_is_scalar(c);
        if v == 0 {
            vstd::utf8::char_u32_cast(c, 0u32);
            vstd::utf8::char_u32_cast('\0', 0u32);
        }
        let e = encode_char(c);
        let r = encode_utf16(cs.drop_first());
        assert forall|j: int| 0 <= j < encode_utf16(cs).len() implies encode_utf16(cs)[j] != 0 by {
            if j >= e.len() {
                assert(encode_utf16(cs)[j] == r[j - e.len()]);
            } else {
                assert(encode_utf16(cs)[j] == e[j]);
                if v < 0x10000 {
                    assert(e[j] == v as u16);
                } else {
                    let h = (0xD800 + (v - 0x10000) / 0x400) as u16;
                    let l = (0xDC00 + (v - 0x10000) % 0x400) as u16;
                    assert(e =~= seq![h, l]);
                    assert(h >= 0xD800 && l >= 0xDC00);
                }
            }
        }
    }
}

/// The buffer that `WideChar::from` builds for text without NUL characters
/// has that text's whole encoding before its terminator, and its text
/// decodes back to that text, strictly and lossily.
pub proof fn lemma_wide_text_round_trip(cs: Seq<char>)
    requires
        forall|i: int| 0 <= i < cs.len() ==> cs[i] != '\0',
    ensures
        first_nul(encode_utf16(cs).push(0)) == encode_utf16(cs).len(),
        before_nul(encode_utf16(cs).push(0)) == encode_utf16(cs),
        decode_utf16(before_nul(encode_utf16(cs).push(0))) == Some(cs),
        decode_utf16_lossy(before_nul(encode_utf16(cs).push(0))) == cs,
{
    let e = encode_utf16(cs);
    lemma_encode_no_nul(cs);
    lemma_first_nul_unique(e.push(0), e.len() as int);
    assert(e.push(0).take(e.len() as int) =~= e);
    lemma_decode_encode(cs);
}

/// Copying a buffer's text into a new terminated buffer keeps the text.
pub proof fn lemma_before_nul_idempotent(us: Seq<u16>)
    ensures
        before_nul(before_nul(us).push(0)) == before_nul(us),
{
    lemma_first_nul(us);
    let t = before_nul(us);
    assert forall|j: int| 0 <= j < t.len() implies t.push(0)[j] != 0 by {
        assert(t.push(0)[j] == us[j]);
    }
    lemma_first_nul_unique(t.push(0), t.len() as int);
    assert(t.push(0).take(t.len() as int) =~= t);
}

/// `String::push` appends the given character to the end of the string, as
/// the standard library documents it.
pub assume_specification[ String::push ](string: &mut String, ch: char)
    ensures
        final(string)@ == old(string)@.push(ch),
;

/// `char::from_u32` returns `Some` exactly for the values that are Unicode
/// scalar values (below U+D800, or from U+E000 to U+10FFFF), and the character
/// it returns has that value, as the standard library documents it.
pub assume_specification[ char::from_u32 ](i: u32) -> (res: Option<char>)
    ensures
        res is Some <==> (i < 0xD800 || (0xE000 <= i && i <= 0x10FFFF)),
        res matches Some(c) ==> c as u32 == i,
;

/// Builds a `String` holding the given characters.
pub fn string_from_chars(cs: &[char]) -> (res: String)
    ensures
        res@ == cs@,
{
    let mut res = String::new();
    let n = cs.len();
    let mut i: usize = 0;
    while i < n
        invariant
            n == cs@.len(),
            i <= n,
            res@ == cs@.take(i as int),
        decreases n - i,
    {
        res.push(cs[i]);
        assert(cs@.take(i + 1) =~= cs@.take(i as int).push(cs@[i as int]));
        i = i + 1;
    }
    assert(cs@.take(n as int) =~= cs@);
    res
}

/// The UTF-16 encoding of `text`, without a terminator.
pub fn encode_wide(text: &str) -> (res: Vec<u16>)
    ensures
        res@ == encode_utf16(text@),
{
    let mut out: Vec<u16> = Vec::new();
    for c in it: text.chars()
        invariant
            it.seq() == text@,
            out@ == encode_utf16(text@.take(it.index())),
    {
        proof {
            lemma_encode_append(it.seq().take(it.index()), seq![c]);
            lemma_encode_single(c);
            assert(it.seq().take(it.index() + 1) =~= it.seq().take(it.index()).push(c));
            assert(it.seq().take(it.index()).push(c) =~= it.seq().take(it.index()) + seq![c]);
        }
        let v = c as u32;
        if v < 0x10000 {
            out.push(v as u16);
        } else {
            let w = v - 0x10000;
            out.push((0xD800 + w / 0x400) as u16);
            out.push((0xDC00 + w % 0x400) as u16);
        }
    }
    assert(text@.take(text@.len() as int) =~= text@);
    out
}

/// The character that a unit outside the surrogate range stands for.
fn unit_char(u: u16) -> (c: char)
    requires
        !is_surrogate(u),
    ensures
        c == u as char,
{
    let c = char::from_u32(u as u32).unwrap();
    proof {
        vstd::utf8::char_u32_cast(c, u as u32);
    }
    c
}

/// The character that a surrogate pair stands for.
fn pair_char(high: u16, low: u16) -> (c: char)
    requires
        is_high_surrogate(high),
        is_low_surrogate(low),
    ensures
        c == pair_scalar(high, low) as char,
{
    let v: u32 = 0x10000 + (high as u32 - 0xD800) * 0x400 + (low as u32 - 0xDC00);
    assert(v == pair_scalar(high, low));
    let c = char::from_u32(v).unwrap();
    proof {
        vstd::utf8::char_u32_cast(c, v);
    }
    c
}

/// Strict UTF-16 decoding of `units`: `None` when they hold an unpaired surrogate.
pub fn decode_wide(units: &[u16]) -> (res: Option<Vec<char>>)
    ensures
        res is Some <==> decode_utf16(units@) is Some,
        res matches Some(cs) ==> cs@ == decode_utf16(units@).unwrap(),
{
    let n = units.len();
    let mut out: Vec<char> = Vec::new();
    let mut i: usize = 0;
    assert(units@.skip(0) =~= units@);
    while i < n
        invariant
            n == units@.len(),
            i <= n,
            decode_utf16(units@) == (match decode_utf16(units@.skip(i as int)) {
                Some(r) => Some(out@ + r),
                None => None,
            }),
        decreases n - i,
    {
        let ghost rest = units@.skip(i as int);
        let u = units[i];
        assert(rest[0] == u);
        if u < 0xD800 || u > 0xDFFF {
            let c = unit_char(u);
            assert(rest.drop_first() =~= units@.skip(i + 1));
            proof {
                match decode_utf16(units@.skip(i + 1)) {
                    Some(r) => {
                        assert(out@.push(c) + r =~= out@ + (seq![c] + r));
                    },
                    None => {},
                }
            }
            out.push(c);
            i = i + 1;
        } else if u <= 0xDBFF && i + 1 < n && units[i + 1] >= 0xDC00 && units[i + 1] <= 0xDFFF {
            let c = pair_char(u, units[i + 1]);
            assert(rest[1] == units@[i + 1]);
            assert(rest.skip(2) =~= units@.skip(i + 2));
            proof {
                match decode_utf16(units@.skip(i + 2)) {
                    Some(r) => {
                        assert(out@.push(c) + r =~= out@ + (seq![c] + r));
                    },
                    None => {},
                }
            }
            out.push(c);
            i = i + 2;
        } else {
            return None;
        }
    }
    assert(units@.skip(n as int) =~= Seq::<u16>::empty());
    assert(out@ + Seq::<char>::empty() =~= out@);
    Some(out)
}

/// Lossy UTF-16 decoding of `units`: every unpaired surrogate becomes U+FFFD.
pub fn decode_wide_lossy(units: &[u16]) -> (res: Vec<char>)
    ensures
        res@ == decode_utf16_lossy(units@),
{
    let n = units.len();
    let mut out: Vec<char> = Vec::new();
    let mut i: usize = 0;
    assert(units@.skip(0) =~= units@);
    while i < n
        invariant
            n == units@.len(),
            i <= n,
            decode_utf16_lossy(units@) == out@ + decode_utf16_lossy(units@.skip(i as int)),
        decreases n - i,
    {
        let ghost rest = units@.skip(i as int);
        let u = units[i];
        assert(rest[0] == u);
        if u >= 0xD800 && u <= 0xDBFF && i + 1 < n && units[i + 1] >= 0xDC00 && units[i + 1] <= 0xDFFF {
            let c = pair_char(u, units[i + 1]);
            assert(rest[1] == units@[i + 1]);
            assert(rest.skip(2) =~= units@.skip(i + 2));
            assert(out@.push(c) + decode_utf16_lossy(units@.skip(i + 2))
                =~= out@ + (seq![c] + decode_utf16_lossy(units@.skip(i + 2))));
            out.push(c);
            i = i + 2;
        } else {
            let c = if u >= 0xD800 && u <= 0xDFFF {
                '\u{FFFD}'
            } else {
                unit_char(u)
            };
            assert(rest.drop_first() =~= units@.skip(i + 1));
            assert(out@.push(c) + decode_utf16_lossy(units@.skip(i + 1))
                =~= out@ + (seq![c] + decode_utf16_lossy(units@.skip(i + 1))));
            out.push(c);
            i = i + 1;
        }
    }
    assert(units@.skip(n as int) =~= Seq::<u16>::empty());
    assert(out@ + Seq::<char>::empty() =~= out@);
    out
}

/// Removes every trailing NUL character.
pub fn trim_end_nul_chars(cs: &mut Vec<char>)
    ensures
        final(cs)@ == trim_end_nul(old(cs)@),
{
    while cs.len() > 0 && cs[cs.len() - 1] == '\0'
        invariant
            trim_end_nul(cs@) == trim_end_nul(old(cs)@),
        decreases cs.len(),
    {
        let ghost before = cs@;
        cs.pop();
        assert(cs@ =~= before.drop_last());
    }
}

/// Length of the NUL-terminated string held at the start of `units`.
pub fn wcslen(units: &[u16]) -> (len: usize)
    requires
        exists|j: int| 0 <= j < units@.len() && units@[j] == 0,
    ensures
        len == first_nul(units@),
        len < units@.len(),
{
    proof {
        lemma_first_nul(units@);
    }
    let mut i: usize = 0;
    while units[i] != 0
        invariant
            i < units@.len(),
            i <= first_nul(units@),
            first_nul(units@) <= units@.len(),
            forall|j: int| 0 <= j < first_nul(units@) ==> units@[j] != 0,
            first_nul(units@) < units@.len() ==> units@[first_nul(units@) as int] == 0,
            exists|j: int| 0 <= j < units@.len() && units@[j] == 0,
        decreases units@.len() - i,
    {
        i = i + 1;
        assert(i < units@.len()) by {
            if first_nul(units@) == units@.len() {
                let j = choose|j: int| 0 <= j < units@.len() && units@[j] == 0;
                assert(false);
            }
        }
    }
    i
}

/// A NUL-terminated UTF-16 buffer, the form in which the Win32 API takes and
/// gives text.  Its view is the whole buffer, terminator included; its text
/// is what comes before the first NUL.
pub struct WideChar {
    wide: Vec<u16>,
}

impl View for WideChar {
    type V = Seq<u16>;

    closed spec fn view(&self) -> Seq<u16> {
        self.wide@
    }
}

impl WideChar {
    /// The buffer always ends with a NUL unit.
    #[verifier::type_invariant]
    spec fn nul_terminated(self) -> bool {
        self.wide@.len() > 0 && self.wide@.last() == 0
    }

    /// The NUL-terminated buffer, for handing to the Win32 API.
    pub fn as_ptr(&self) -> (res: &[u16])
        ensures
            res@ == self@,
            res@.len() > 0,
            res@.last() == 0,
    {
        proof {
            use_type_invariant(self);
        }
        self.wide.as_slice()
    }

    /// Copies the NUL-terminated string at the start of `buffer`: its units up
    /// to the first NUL, and that NUL.
    pub fn from_ptr(buffer: &[u16]) -> (res: WideChar)
        requires
            exists|j: int| 0 <= j < buffer@.len() && buffer@[j] == 0,
        ensures
            res@ == before_nul(buffer@).push(0),
    {
        let len = Self::wcslen(buffer);
        let mut wide: Vec<u16> = Vec::new();
        let mut i: usize = 0;
        while i < len
            invariant
                len < buffer@.len(),
                i <= len,
                wide@ == buffer@.take(i as int),
            decreases len - i,
        {
            wide.push(buffer[i]);
            assert(buffer@.take(i + 1) =~= buffer@.take(i as int).push(buffer@[i as int]));
            i = i + 1;
        }
        wide.push(0);
        WideChar { wide }
    }

    /// The text of the buffer, decoded strictly.  The buffer must hold valid
    /// UTF-16 before its first NUL.
    pub fn to_string(&self) -> (res: String)
        requires
            decode_utf16(before_nul(self@)) is Some,
        ensures
            res@ == decode_utf16(before_nul(self@)).unwrap(),
    {
        let units = self.text_units();
        let chars = decode_wide(units.as_slice());
        string_from_chars(chars.unwrap().as_slice())
    }

    /// The text of the buffer, decoded with every unpaired surrogate replaced
    /// by U+FFFD.
    pub fn to_string_lossy(&self) -> (res: String)
        ensures
            res@ == decode_utf16_lossy(before_nul(self@)),
    {
        let units = self.text_units();
        let chars = decode_wide_lossy(units.as_slice());
        string_from_chars(chars.as_slice())
    }

    /// The units before the first NUL.
    fn text_units(&self) -> (res: Vec<u16>)
        ensures
            res@ == before_nul(self@),
    {
        proof {
            use_type_invariant(self);
            assert(self.wide@[self.wide@.len() - 1] == 0);
        }
        let len = Self::wcslen(self.wide.as_slice());
        let mut units: Vec<u16> = Vec::new();
        let mut i: usize = 0;
        while i < len
            invariant
                len < self.wide@.len(),
                len == first_nul(self.wide@),
                i <= len,
                units@ == self.wide@.take(i as int),
            decreases len - i,
        {
            units.push(self.wide[i]);
            assert(self.wide@.take(i + 1) =~= self.wide@.take(i as int).push(self.wide@[i as int]));
            i = i + 1;
        }
        units
    }

    /// Length of the NUL-terminated string at the start of `units`: the number
    /// of units before the first NUL.
    pub fn wcslen(units: &[u16]) -> (len: usize)
        requires
            exists|j: int| 0 <= j < units@.len() && units@[j] == 0,
        ensures
            len == first_nul(units@),
            len < units@.len(),
    {
        wcslen(units)
    }
}

impl<'a> From<&'a str> for WideChar {
    /// The NUL-terminated UTF-16 encoding of `text`.
    fn from(text: &'a str) -> (res: WideChar)
        ensures
            res@ == encode_utf16(text@).push(0),
    {
        let mut wide = encode_wide(text);
        wide.push(0);
        WideChar { wide }
    }
}

impl<'a> vstd::std_specs::convert::FromSpecImpl<&'a str> for WideChar {
    /// A spec function cannot build the buffer that a `WideChar` owns, so
    /// `from` states its result in its own `ensures` instead.
    open spec fn obeys_from_spec() -> bool {
        false
    }

    open spec fn from_spec(v: &'a str) -> WideChar {
        vstd::pervasive::arbitrary()
    }
}

} // verus!
