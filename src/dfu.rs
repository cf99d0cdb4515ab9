//! USB DFU targets, named by bus, port, vendor and product in hex.
use vstd::prelude::*;

use crate::cache::hex_digits;
use crate::text::{push_char, unsigned_digits};

verus! {

/// A whitespace character, as `char::is_whitespace` has it (Unicode White_Space).
pub open spec fn is_ws(c: char) -> bool {
    c == '\t' || c == '\n' || c == '\u{0B}' || c == '\u{0C}' || c == '\r' || c == ' ' || c
        == '\u{85}' || c == '\u{A0}' || c == '\u{1680}' || ('\u{2000}' <= c && c <= '\u{200A}')
        || c == '\u{2028}' || c == '\u{2029}' || c == '\u{202F}' || c == '\u{205F}' || c
        == '\u{3000}'
}

fn is_ws_char(c: char) -> (r: bool)
    ensures
        r == is_ws(c),
{
    c == '\t' || c == '\n' || c == '\u{0B}' || c == '\u{0C}' || c == '\r' || c == ' ' || c
        == '\u{85}' || c == '\u{A0}' || c == '\u{1680}' || ('\u{2000}' <= c && c <= '\u{200A}')
        || c == '\u{2028}' || c == '\u{2029}' || c == '\u{202F}' || c == '\u{205F}' || c
        == '\u{3000}'
}

/// `s` without its leading whitespace.
pub open spec fn trim_start(s: Seq<char>) -> Seq<char>
    decreases s.len(),
{
    if s.len() > 0 && is_ws(s[0]) {
        trim_start(s.drop_first())
    } else {
        s
    }
}

/// `s` without its trailing whitespace.
pub open spec fn trim_end(s: Seq<char>) -> Seq<char>
    decreases s.len(),
{
    if s.len() > 0 && is_ws(s.last()) {
        trim_end(s.drop_last())
    } else {
        s
    }
}

/// `s` without leading and trailing whitespace, as `str::trim` gives it.
pub open spec fn spec_trim(s: Seq<char>) -> Seq<char> {
    trim_end(trim_start(s))
}

/// The pieces of `s` between `:` separators, as `str::split(":")` gives them.
pub open spec fn split_colon(s: Seq<char>) -> Seq<Seq<char>>
    decreases s.len(),
{
    if s.len() == 0 {
        seq![Seq::empty()]
    } else {
        let p = split_colon(s.drop_last());
        if s.last() == ':' {
            p.push(Seq::empty())
        } else {
            p.update(p.len() - 1, p[p.len() - 1].push(s.last()))
        }
    }
}

/// A hexadecimal digit, either case.
pub open spec fn is_hex(c: char) -> bool {
    ('0' <= c && c <= '9') || ('a' <= c && c <= 'f') || ('A' <= c && c <= 'F')
}

/// The value of a hexadecimal digit.
pub open spec fn hex_val(c: char) -> int {
    if '0' <= c && c <= '9' {
        (c as u32) as int - ('0' as u32) as int
    } else if 'a' <= c && c <= 'f' {
        (c as u32) as int - ('a' as u32) as int + 10
    } else {
        (c as u32) as int - ('A' as u32) as int + 10
    }
}

/// Every character of `s` is a hexadecimal digit.
pub open spec fn all_hex(s: Seq<char>) -> bool {
    forall|i: int| 0 <= i < s.len() ==> is_hex(#[trigger] s[i])
}

/// The number the hexadecimal digits `s` write, most significant first.
pub open spec fn hex_value(s: Seq<char>) -> int
    decreases s.len(),
{
    if s.len() == 0 {
        0
    } else {
        hex_value(s.drop_last()) * 16 + hex_val(s.last())
    }
}

/// What `from_str_radix(s, 16)` accepts for an unsigned type whose largest
/// value is `max`: an optional `+`, then one or more hex digits whose value
/// is at most `max`.
pub open spec fn spec_parse_hex(s: Seq<char>, max: int) -> Option<int> {
    let d = unsigned_digits(s);
    if d.len() > 0 && all_hex(d) && hex_value(d) <= max {
        Some(hex_value(d))
    } else {
        None
    }
}

/// Why an identifier was refused.
#[derive(Clone, Copy, Debug, PartialEq, Eq, Structural)]
pub enum IdentifierError {
    /// Not four `:`-separated parts.
    InvalidIdentifier,
    InvalidBusNumber,
    InvalidAddress,
    InvalidVendorId,
    InvalidProductId,
}

/// The bus, port, vendor id and product id an identifier names.
pub open spec fn spec_identifier(s: Seq<char>) -> Result<(u8, u8, u16, u16), IdentifierError> {
    let p = split_colon(s);
    if p.len() != 4 {
        Err(IdentifierError::InvalidIdentifier)
    } else if spec_parse_hex(spec_trim(p[0]), 0xff) is None {
        Err(IdentifierError::InvalidBusNumber)
    } else if spec_parse_hex(spec_trim(p[1]), 0xff) is None {
        Err(IdentifierError::InvalidAddress)
    } else if spec_parse_hex(spec_trim(p[2]), 0xffff) is None {
        Err(IdentifierError::InvalidVendorId)
    } else if spec_parse_hex(spec_trim(p[3]), 0xffff) is None {
        Err(IdentifierError::InvalidProductId)
    } else {
        Ok(
            (
                spec_parse_hex(spec_trim(p[0]), 0xff).unwrap() as u8,
                spec_parse_hex(spec_trim(p[1]), 0xff).unwrap() as u8,
                spec_parse_hex(spec_trim(p[2]), 0xffff).unwrap() as u16,
                spec_parse_hex(spec_trim(p[3]), 0xffff).unwrap() as u16,
            ),
        )
    }
}

/// `w` lowercase hex digits of `v`, most significant first, as `{:0w$x}`
/// writes a value below `16^w`.
pub open spec fn hex_fixed(v: int, w: nat) -> Seq<char>
    decreases w,
{
    if w == 0 {
        Seq::empty()
    } else {
        hex_fixed(v / 16, (w - 1) as nat).push(hex_digits()[v % 16])
    }
}

/// `bb:pp:vvvv:pppp`, the identifier of a DFU device.
pub open spec fn spec_format_identifier(bus: u8, port: u8, vendor: u16, product: u16) -> Seq<
    char,
> {
    hex_fixed(bus as int, 2) + seq![':'] + hex_fixed(port as int, 2) + seq![':'] + hex_fixed(
        vendor as int,
        4,
    ) + seq![':'] + hex_fixed(product as int, 4)
}

proof fn lemma_trim_start(s: Seq<char>, a: int)
    requires
        0 <= a <= s.len(),
        forall|k: int| 0 <= k < a ==> is_ws(s[k]),
        a == s.len() || !is_ws(s[a]),
    ensures
        trim_start(s) == s.subrange(a, s.len() as int),
    decreases a,
{
    if a == 0 {
        assert(s.subrange(0, s.len() as int) =~= s);
    } else {
        let t = s.drop_first();
        lemma_trim_start(t, a - 1);
        assert(t.subrange(a - 1, t.len() as int) =~= s.subrange(a, s.len() as int));
    }
}

proof fn lemma_trim_end(s: Seq<char>, e: int)
    requires
        0 <= e <= s.len(),
        forall|k: int| e <= k < s.len() ==> is_ws(s[k]),
        e == 0 || !is_ws(s[e - 1]),
    ensures
        trim_end(s) == s.subrange(0, e),
    decreases s.len(),
{
    if s.len() == e {
        assert(s.subrange(0, e) =~= s);
    } else {
        lemma_trim_end(s.drop_last(), e);
        assert(s.drop_last().subrange(0, e) =~= s.subrange(0, e));
    }
}

/// `s` without leading and trailing whitespace.
pub fn trim(s: &str) -> (r: String)
    ensures
        r@ == spec_trim(s@),
{
    let n = s.unicode_len();
    let mut a: usize = 0;
    while a < n && is_ws_char(s.get_char(a))
        invariant
            n == s@.len(),
            a <= n,
            forall|k: int| 0 <= k < a ==> is_ws(s@[k]),
        decreases n - a,
    {
        a += 1;
    }
    proof {
        lemma_trim_start(s@, a as int);
    }
    let ghost t = s@.subrange(a as int, n as int);
    let mut b: usize = n;
    while b > a && is_ws_char(s.get_char(b - 1))
        invariant
            n == s@.len(),
            a <= b <= n,
            forall|k: int| b <= k < n ==> is_ws(s@[k]),
        decreases b,
    {
        b -= 1;
    }
    proof {
        assert forall|k: int| b - a <= k < t.len() implies is_ws(t[k]) by {
            assert(t[k] == s@[a + k]);
        }
        if b > a {
            assert(t[b - a - 1] == s@[b - 1]);
        }
        lemma_trim_end(t, b - a);
        assert(t.subrange(0, b - a) =~= s@.subrange(a as int, b as int));
    }
    String::from_str(s.substring_char(a, b))
}

proof fn lemma_split_nonempty(s: Seq<char>)
    ensures
        split_colon(s).len() >= 1,
    decreases s.len(),
{
    if s.len() > 0 {
        lemma_split_nonempty(s.drop_last());
    }
}

/// The views of a sequence of strings.
pub open spec fn views(v: Seq<String>) -> Seq<Seq<char>> {
    v.map_values(|x: String| x@)
}

/// The pieces of `s` between `:` separators.
pub fn split_colons(s: &str) -> (r: Vec<String>)
    ensures
        views(r@) == split_colon(s@),
{
    let n = s.unicode_len();
    let mut parts: Vec<String> = Vec::new();
    let mut cur = String::new();
    let mut i: usize = 0;
    assert(s@.subrange(0, 0) =~= Seq::<char>::empty());
    assert(views(parts@).push(cur@) =~= split_colon(s@.subrange(0, 0)));
    while i < n
        invariant
            n == s@.len(),
            i <= n,
            views(parts@).push(cur@) == split_colon(s@.subrange(0, i as int)),
        decreases n - i,
    {
        let c = s.get_char(i);
        let ghost pre = s@.subrange(0, i as int);
        let ghost next = s@.subrange(0, i + 1);
        assert(next.drop_last() =~= pre);
        assert(next.last() == c);
        proof {
            lemma_split_nonempty(pre);
        }
        if c == ':' {
            parts.push(cur);
            cur = String::new();
            assert(views(parts@).push(cur@) =~= split_colon(next));
        } else {
            let ghost old_cur = cur@;
            push_char(&mut cur, c);
            assert(views(parts@).push(cur@) =~= split_colon(next));
        }
        i += 1;
    }
    assert(s@.subrange(0, n as int) =~= s@);
    parts.push(cur);
    assert(views(parts@) =~= split_colon(s@));
    parts
}

proof fn lemma_hex_nonneg(s: Seq<char>)
    requires
        all_hex(s),
    ensures
        hex_value(s) >= 0,
    decreases s.len(),
{
    if s.len() > 0 {
        assert(is_hex(s[s.len() - 1]));
        lemma_hex_nonneg(s.drop_last());
    }
}

proof fn lemma_hex_prefix_le(s: Seq<char>, i: int)
    requires
        all_hex(s),
        0 <= i <= s.len(),
    ensures
        hex_value(s.subrange(0, i)) <= hex_value(s),
    decreases s.len(),
{
    if i < s.len() {
        let t = s.drop_last();
        assert(t.subrange(0, i) =~= s.subrange(0, i));
        lemma_hex_prefix_le(t, i);
        lemma_hex_nonneg(t);
        assert(is_hex(s[s.len() - 1]));
    } else {
        assert(s.subrange(0, i) =~= s);
    }
}

/// Reads a hexadecimal number of at most `max`, as `from_str_radix(s, 16)` does
/// for an unsigned type whose largest value is `max`.
pub fn parse_hex(s: &str, max: u32) -> (r: Option<u32>)
    ensures
        r matches Some(v) ==> spec_parse_hex(s@, max as int) == Some(v as int),
        r is None ==> spec_parse_hex(s@, max as int) is None,
{
    let n = s.unicode_len();
    let mut start: usize = 0;
    if n > 0 && s.get_char(0) == '+' {
        start = 1;
    }
    let ghost d = unsigned_digits(s@);
    assert(d =~= s@.subrange(start as int, n as int));
    if start == n {
        return None;
    }
    let mut v: u32 = 0;
    let mut i: usize = start;
    while i < n
        invariant
            n == s@.len(),
            start <= i <= n,
            d == s@.subrange(start as int, n as int),
            d == unsigned_digits(s@),
            all_hex(s@.subrange(start as int, i as int)),
            v as int == hex_value(s@.subrange(start as int, i as int)),
            v <= max,
        decreases n - i,
    {
        let c = s.get_char(i);
        let ghost p = s@.subrange(start as int, i + 1);
        assert(p.drop_last() =~= s@.subrange(start as int, i as int));
        let dv: u32 = if '0' <= c && c <= '9' {
            c as u32 - '0' as u32
        } else if 'a' <= c && c <= 'f' {
            c as u32 - 'a' as u32 + 10
        } else if 'A' <= c && c <= 'F' {
            c as u32 - 'A' as u32 + 10
        } else {
            assert(d[i - start] == s@[i as int]);
            assert(!is_hex(d[i - start]));
            return None;
        };
        assert(all_hex(p)) by {
            assert forall|k: int| 0 <= k < p.len() implies is_hex(#[trigger] p[k]) by {
                if k < p.len() - 1 {
                    assert(p[k] == s@.subrange(start as int, i as int)[k]);
                }
            }
        }
        assert(p.last() == c);
        let w: u64 = v as u64 * 16 + dv as u64;
        assert(hex_value(p) == w);
        if w > max as u64 {
            proof {
                if all_hex(d) {
                    assert(p =~= d.subrange(0, i + 1 - start));
                    lemma_hex_prefix_le(d, i + 1 - start);
                }
            }
            return None;
        }
        v = w as u32;
        i += 1;
    }
    assert(s@.subrange(start as int, n as int) =~= d);
    Some(v)
}

fn hex_digit_char(d: u64) -> (r: char)
    requires
        d < 16,
    ensures
        r == hex_digits()[d as int],
{
    let t = "0123456789abcdef";
    proof {
        reveal_strlit("0123456789abcdef");
    }
    assert(t@ =~= hex_digits());
    t.get_char(d as usize)
}

/// `w` lowercase hex digits of `v`.
fn hex_fixed_exec(v: u64, w: usize) -> (r: String)
    ensures
        r@ == hex_fixed(v as int, w as nat),
    decreases w,
{
    if w == 0 {
        String::new()
    } else {
        let mut r = hex_fixed_exec(v / 16, w - 1);
        push_char(&mut r, hex_digit_char(v % 16));
        r
    }
}

/// A USB DFU device.
#[derive(Clone, Debug)]
pub struct Target {
    pub name: String,
    pub bus_num: u8,
    pub port_num: u8,
    pub vendor_id: u16,
    pub product_id: u16,
}

impl Target {
    pub fn bus_number(&self) -> (r: u8)
        ensures
            r == self.bus_num,
    {
        self.bus_num
    }

    pub fn port_num(&self) -> (r: u8)
        ensures
            r == self.port_num,
    {
        self.port_num
    }

    pub fn vendor_id(&self) -> (r: u16)
        ensures
            r == self.vendor_id,
    {
        self.vendor_id
    }

    pub fn product_id(&self) -> (r: u16)
        ensures
            r == self.product_id,
    {
        self.product_id
    }

    /// `bb:pp:vvvv:pppp` in lowercase hex: bus, port, vendor id, product id.
    pub fn identifier(&self) -> (r: String)
        ensures
            r@ == spec_format_identifier(self.bus_num, self.port_num, self.vendor_id, self.product_id),
    {
        let mut r = hex_fixed_exec(self.bus_num as u64, 2);
        push_char(&mut r, ':');
        let p = hex_fixed_exec(self.port_num as u64, 2);
        r.append(p.as_str());
        push_char(&mut r, ':');
        let v = hex_fixed_exec(self.vendor_id as u64, 4);
        r.append(v.as_str());
        push_char(&mut r, ':');
        let q = hex_fixed_exec(self.product_id as u64, 4);
        r.append(q.as_str());
        assert(r@ =~= spec_format_identifier(self.bus_num, self.port_num, self.vendor_id, self.product_id));
        r
    }
}

/// Flasher of firmware images to a DFU device: each image goes with the name
/// of the DFU alternate setting it is written to.
pub struct Flasher<R> {
    pub imgs: Vec<(String, R)>,
    pub vendor_id: u16,
    pub product_id: u16,
    pub bus_num: u8,
    pub port_num: u8,
}

impl<R> Flasher<R> {
    /// A flasher for the device that `id` names, as `Target::identifier`
    /// writes it; each of its parts may have whitespace around it.
    pub fn from_identifier(imgs: Vec<(String, R)>, id: &str) -> (r: Result<Self, IdentifierError>)
        ensures
            r is Ok <==> spec_identifier(id@) is Ok,
            r matches Err(e) ==> spec_identifier(id@) == Err::<(u8, u8, u16, u16), IdentifierError>(e),
            r matches Ok(f) ==> spec_identifier(id@) == Ok::<(u8, u8, u16, u16), IdentifierError>(
                (f.bus_num, f.port_num, f.vendor_id, f.product_id),
            ) && f.imgs == imgs,
    {
        let parts = split_colons(id);
        proof {
            assert(views(parts@).len() == parts@.len());
        }
        if parts.len() != 4 {
            return Err(IdentifierError::InvalidIdentifier);
        }
        assert(views(parts@)[0] == parts@[0]@);
        assert(views(parts@)[1] == parts@[1]@);
        assert(views(parts@)[2] == parts@[2]@);
        assert(views(parts@)[3] == parts@[3]@);
        let bus_num = match parse_hex(trim(parts[0].as_str()).as_str(), 0xff) {
            Some(v) => v as u8,
            None => {
                return Err(IdentifierError::InvalidBusNumber);
            },
        };
        let port_num = match parse_hex(trim(parts[1].as_str()).as_str(), 0xff) {
            Some(v) => v as u8,
            None => {
                return Err(IdentifierError::InvalidAddress);
            },
        };
        let vendor_id = match parse_hex(trim(parts[2].as_str()).as_str(), 0xffff) {
            Some(v) => v as u16,
            None => {
                return Err(IdentifierError::InvalidVendorId);
            },
        };
        let product_id = match parse_hex(trim(parts[3].as_str()).as_str(), 0xffff) {
            Some(v) => v as u16,
            None => {
                return Err(IdentifierError::InvalidProductId);
            },
        };
        Ok(Flasher { imgs, vendor_id, product_id, bus_num, port_num })
    }
}

/// Pairs a flat list `name, path, name, path, ...` into (name, path) pairs;
/// `None` where the list has an odd length.
pub fn pair_images(items: &Vec<String>) -> (r: Option<Vec<(String, String)>>)
    ensures
        r is Some <==> items@.len() % 2 == 0,
        r matches Some(v) ==> v@.len() * 2 == items@.len() && forall|j: int|
            0 <= j < v@.len() ==> (#[trigger] v@[j]).0 == items@[2 * j] && v@[j].1 == items@[2 * j
                + 1],
{
    if items.len() % 2 == 1 {
        return None;
    }
    let mut v: Vec<(String, String)> = Vec::new();
    let mut i: usize = 0;
    while i < items.len()
        invariant
            items@.len() % 2 == 0,
            i % 2 == 0,
            i <= items@.len(),
            v@.len() * 2 == i,
            forall|j: int|
                0 <= j < v@.len() ==> (#[trigger] v@[j]).0 == items@[2 * j] && v@[j].1 == items@[2
                    * j + 1],
        decreases items@.len() - i,
    {
        v.push((items[i].clone(), items[i + 1].clone()));
        i += 2;
    }
    Some(v)
}

proof fn lemma_split_no_colon(a: Seq<char>)
    requires
        forall|i: int| 0 <= i < a.len() ==> a[i] != ':',
    ensures
        split_colon(a) == seq![a],
    decreases a.len(),
{
    if a.len() > 0 {
        lemma_split_no_colon(a.drop_last());
        assert(a.drop_last().push(a.last()) =~= a);
        assert(seq![a.drop_last()].update(0, a.drop_last().push(a.last())) =~= seq![a]);
        assert(a[a.len() - 1] != ':');
    } else {
        assert(a =~= Seq::<char>::empty());
    }
}

proof fn lemma_split_join(x: Seq<char>, y: Seq<char>)
    ensures
        split_colon(x + seq![':'] + y) == split_colon(x) + split_colon(y),
    decreases y.len(),
{
    lemma_split_nonempty(x);
    lemma_split_nonempty(y);
    let xy = x + seq![':'] + y;
    if y.len() == 0 {
        assert(xy =~= x + seq![':']);
        assert((x + seq![':']).drop_last() =~= x);
        assert(split_colon(x).push(Seq::empty()) =~= split_colon(x) + seq![Seq::<char>::empty()]);
    } else {
        let y0 = y.drop_last();
        lemma_split_join(x, y0);
        lemma_split_nonempty(y0);
        assert(xy.drop_last() =~= x + seq![':'] + y0);
        assert(xy.last() == y.last());
        let px = split_colon(x);
        let py = split_colon(y0);
        if y.last() == ':' {
            assert((px + py).push(Seq::empty()) =~= px + py.push(Seq::empty()));
        } else {
            let q = px + py;
            assert(q.update(q.len() - 1, q[q.len() - 1].push(y.last())) =~= px + py.update(
                py.len() - 1,
                py[py.len() - 1].push(y.last()),
            ));
        }
    }
}

/// The number of values `w` hex digits can write.
pub open spec fn pow16(w: nat) -> int
    decreases w,
{
    if w == 0 {
        1
    } else {
        16 * pow16((w - 1) as nat)
    }
}

proof fn lemma_hex_digit_value(d: int)
    requires
        0 <= d < 16,
    ensures
        is_hex(hex_digits()[d]),
        hex_val(hex_digits()[d]) == d,
        hex_digits()[d] != ':',
        hex_digits()[d] != '+',
        !is_ws(hex_digits()[d]),
{
}

proof fn lemma_hex_fixed(v: int, w: nat)
    requires
        0 <= v < pow16(w),
    ensures
        hex_fixed(v, w).len() == w,
        all_hex(hex_fixed(v, w)),
        hex_value(hex_fixed(v, w)) == v,
        forall|i: int| 0 <= i < w ==> #[trigger] hex_fixed(v, w)[i] != ':' && !is_ws(hex_fixed(v, w)[i])
            && hex_fixed(v, w)[i] != '+',
    decreases w,
{
    if w > 0 {
        assert(v / 16 < pow16((w - 1) as nat)) by (nonlinear_arith)
            requires
                v < 16 * pow16((w - 1) as nat),
                0 <= v,
        ;
        lemma_hex_fixed(v / 16, (w - 1) as nat);
        lemma_hex_digit_value(v % 16);
        let h = hex_fixed(v, w);
        assert(h.drop_last() =~= hex_fixed(v / 16, (w - 1) as nat));
        assert forall|i: int| 0 <= i < h.len() implies is_hex(#[trigger] h[i]) by {
            if i < h.len() - 1 {
                assert(h[i] == hex_fixed(v / 16, (w - 1) as nat)[i]);
            }
        }
    }
}

proof fn lemma_parse_fixed(v: int, w: nat, max: int)
    requires
        0 <= v < pow16(w),
        w > 0,
        v <= max,
    ensures
        spec_parse_hex(spec_trim(hex_fixed(v, w)), max) == Some(v),
{
    lemma_hex_fixed(v, w);
    let h = hex_fixed(v, w);
    assert(trim_start(h) == h);
    assert(trim_end(h) == h);
    assert(unsigned_digits(h) == h);
}

/// Reading back the identifier of a DFU device gives its bus, port, vendor id
/// and product id.
pub proof fn lemma_identifier_round_trip(bus: u8, port: u8, vendor: u16, product: u16)
    ensures
        spec_identifier(spec_format_identifier(bus, port, vendor, product)) == Ok::<
            (u8, u8, u16, u16),
            IdentifierError,
        >((bus, port, vendor, product)),
{
    assert(pow16(0) == 1);
    assert(pow16(1) == 16);
    assert(pow16(2) == 256);
    assert(pow16(3) == 4096);
    assert(pow16(4) == 65536);
    let a = hex_fixed(bus as int, 2);
    let b = hex_fixed(port as int, 2);
    let c = hex_fixed(vendor as int, 4);
    let d = hex_fixed(product as int, 4);
    lemma_hex_fixed(bus as int, 2);
    lemma_hex_fixed(port as int, 2);
    lemma_hex_fixed(vendor as int, 4);
    lemma_hex_fixed(product as int, 4);
    lemma_split_no_colon(a);
    lemma_split_no_colon(b);
    lemma_split_no_colon(c);
    lemma_split_no_colon(d);
    let s = spec_format_identifier(bus, port, vendor, product);
    lemma_split_join(a + seq![':'] + b + seq![':'] + c, d);
    lemma_split_join(a + seq![':'] + b, c);
    lemma_split_join(a, b);
    let p = split_colon(s);
    assert(p =~= seq![a, b, c, d]);
    lemma_parse_fixed(bus as int, 2, 0xff);
    lemma_parse_fixed(port as int, 2, 0xff);
    lemma_parse_fixed(vendor as int, 4, 0xffff);
    lemma_parse_fixed(product as int, 4, 0xffff);
}

} // verus!
