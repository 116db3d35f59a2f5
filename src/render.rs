use vstd::prelude::*;
use vstd::string::StringSliceAdditionalSpecFns;
use vstd::utf8::encode_utf8;
use crate::buffer::BufWriter;

verus! {

/// ASCII `:`, the separator between location components.
pub const COLON: u8 = 58;

/// ASCII `[`.
pub const OPEN: u8 = 91;

/// ASCII `]`.
pub const CLOSE: u8 = 93;

/// Decimal digits of `n` in ASCII, most significant first, no leading zeros.
pub open spec fn decimal(n: nat) -> Seq<u8>
    decreases n,
{
    if n < 10 {
        seq![(48 + n) as u8]
    } else {
        decimal(n / 10).push((48 + n % 10) as u8)
    }
}

/// Numbers below `10^j` take at most `j` digits.
proof fn lemma_decimal_len(n: nat, j: nat)
    requires
        n < pow10(j),
        j >= 1,
    ensures
        decimal(n).len() <= j,
    decreases n,
{
    if n >= 10 {
        assert(j >= 2) by {
            if j == 1 {
                assert(pow10(1) == 10 * pow10(0));
            }
        }
        assert(pow10(j) == 10 * pow10((j - 1) as nat));
        assert(n / 10 < pow10((j - 1) as nat));
        lemma_decimal_len(n / 10, (j - 1) as nat);
    }
}

/// `10^j`.
pub open spec fn pow10(j: nat) -> nat
    decreases j,
{
    if j == 0 {
        1
    } else {
        10 * pow10((j - 1) as nat)
    }
}

/// Appends the decimal digits of `n`, or fails leaving the buffer as it was.
pub fn write_decimal<const N: usize>(w: &mut BufWriter<N>, n: u32) -> (r: Result<(), crate::buffer::BufferOverflow>)
    requires
        old(w).wf(),
    ensures
        final(w).wf(),
        r is Ok <==> old(w).fits(decimal(n as nat).len() as int),
        r is Ok ==> final(w)@ == old(w)@ + decimal(n as nat),
        r is Err ==> *final(w) == *old(w),
{
    let mut digits: [u8; 10] = [0u8; 10];
    let mut m: u32 = n;
    let mut k: usize = 10;
    proof {
        assert(pow10(10) == 10000000000) by {
            reveal_with_fuel(pow10, 11);
        }
        lemma_decimal_len(n as nat, 10);
        assert(digits@.subrange(10, 10) =~= Seq::<u8>::empty());
    }
    while m >= 10
        invariant
            1 <= k <= 10,
            digits@.len() == 10,
            decimal(n as nat) == decimal(m as nat) + digits@.subrange(k as int, 10),
            decimal(m as nat).len() <= k,
        decreases m,
    {
        let ghost tail = digits@.subrange(k as int, 10);
        assert(decimal(m as nat) == decimal((m / 10) as nat).push((48 + m % 10) as u8));
        digits[k - 1] = (48 + m % 10) as u8;
        assert(digits@.subrange(k - 1, 10) =~= seq![(48 + m % 10) as u8] + tail);
        assert(decimal(n as nat) =~= decimal((m / 10) as nat) + digits@.subrange(k - 1, 10));
        m = m / 10;
        k = k - 1;
    }
    let ghost tail = digits@.subrange(k as int, 10);
    digits[k - 1] = (48 + m) as u8;
    k = k - 1;
    assert(digits@.subrange(k as int, 10) =~= seq![(48 + m) as u8] + tail);
    assert(decimal(n as nat) =~= digits@.subrange(k as int, 10));
    let s = vstd::slice::slice_subrange(digits.as_slice(), k, 10);
    w.write_bytes(s)
}

} // verus!

verus! {

/// `content` with `a` appended when it fits in `room` bytes, else unchanged.
pub open spec fn put1(content: Seq<u8>, a: Seq<u8>, room: int) -> Seq<u8> {
    if content.len() + a.len() <= room {
        content + a
    } else {
        content
    }
}

/// `a` then `b` appended as one formatting step: `b` is tried only when `a`
/// went in.
pub open spec fn put2(content: Seq<u8>, a: Seq<u8>, b: Seq<u8>, room: int) -> Seq<u8> {
    if content.len() + a.len() <= room {
        put1(content + a, b, room)
    } else {
        content
    }
}

/// Three pieces appended as one formatting step.
pub open spec fn put3(content: Seq<u8>, a: Seq<u8>, b: Seq<u8>, c: Seq<u8>, room: int) -> Seq<u8> {
    if content.len() + a.len() <= room {
        put2(content + a, b, c, room)
    } else {
        content
    }
}

/// UTF-8 bytes of an optional string.
pub open spec fn opt_utf8(s: Option<String>) -> Option<Seq<u8>> {
    match s {
        Some(t) => Some(encode_utf8(t@)),
        None => None,
    }
}

/// A trailing separator directly after the opening bracket at `start` is
/// kept; one after a component is dropped.
pub open spec fn trim_separator(content: Seq<u8>, start: int) -> Seq<u8> {
    if content.len() > start + 1 && content.last() == COLON {
        content.drop_last()
    } else {
        content
    }
}

/// What the location step appends to `content`: `[`, then each shown and
/// present component followed by `:` (the line number by nothing), the last
/// separator trimmed, then `]`. Each step that does not fit in `room` bytes is
/// left out, the rest go on.
pub open spec fn location_info(
    content: Seq<u8>,
    show: crate::record::ShowFlags,
    module: Option<Seq<u8>>,
    file: Option<Seq<u8>>,
    line: Option<u32>,
    room: int,
) -> Seq<u8> {
    let c1 = put1(content, seq![OPEN], room);
    let c2 = if show.module && module is Some {
        put2(c1, module->0, seq![COLON], room)
    } else {
        c1
    };
    let c3 = if show.file && file is Some {
        put2(c2, file->0, seq![COLON], room)
    } else {
        c2
    };
    let c4 = if show.line && line is Some {
        put1(c3, decimal(line->0 as nat), room)
    } else {
        c3
    };
    put1(trim_separator(c4, content.len() as int), seq![CLOSE], room)
}

/// Appends `s` then the byte `b` as one step.
fn write_str_then<const N: usize>(w: &mut BufWriter<N>, s: &str, b: u8)
    requires
        old(w).wf(),
    ensures
        final(w).wf(),
        final(w)@ == put2(old(w)@, s.spec_bytes(), seq![b], BufWriter::<N>::room()),
{
    if w.write_str(s).is_ok() {
        let ghost mid = w@;
        let _ = w.write_byte(b);
        assert(mid.push(b) =~= mid + seq![b]);
    }
}

/// Appends one byte if it fits.
fn put_byte<const N: usize>(w: &mut BufWriter<N>, b: u8)
    requires
        old(w).wf(),
    ensures
        final(w).wf(),
        final(w)@ == put1(old(w)@, seq![b], BufWriter::<N>::room()),
{
    let _ = w.write_byte(b);
    assert(old(w)@.push(b) =~= old(w)@ + seq![b]);
}

/// Appends the bracketed location of an event, as `location_info` says.
pub fn write_location<const N: usize>(
    w: &mut BufWriter<N>,
    show: crate::record::ShowFlags,
    module: &Option<String>,
    file: &Option<String>,
    line: Option<u32>,
)
    requires
        old(w).wf(),
    ensures
        final(w).wf(),
        final(w)@ == location_info(
            old(w)@,
            show,
            opt_utf8(*module),
            opt_utf8(*file),
            line,
            BufWriter::<N>::room(),
        ),
{
    let start = w.len();
    put_byte(w, OPEN);
    if show.module {
        if let Some(m) = module {
            write_str_then(w, m.as_str(), COLON);
        }
    }
    if show.file {
        if let Some(f) = file {
            write_str_then(w, f.as_str(), COLON);
        }
    }
    if show.line {
        if let Some(n) = line {
            let _ = write_decimal(w, n);
        }
    }
    if w.len() > start && w.len() - start > 1 {
        if w.last() == Some(COLON) {
            w.pop();
        }
    }
    put_byte(w, CLOSE);
}

/// Appends `[`, the tag and `]` as one step.
pub fn write_bracketed<const N: usize>(w: &mut BufWriter<N>, tag: &str)
    requires
        old(w).wf(),
    ensures
        final(w).wf(),
        final(w)@ == put3(old(w)@, seq![OPEN], tag.spec_bytes(), seq![CLOSE], BufWriter::<N>::room()),
{
    if w.write_byte(OPEN).is_ok() {
        assert(old(w)@.push(OPEN) =~= old(w)@ + seq![OPEN]);
        write_str_then(w, tag, CLOSE);
    }
}

} // verus!

verus! {

/// The parts joined with `:` between neighbours, none before or after.
pub open spec fn join_colon(parts: Seq<Seq<u8>>) -> Seq<u8>
    decreases parts.len(),
{
    if parts.len() == 0 {
        Seq::empty()
    } else if parts.len() == 1 {
        parts[0]
    } else {
        parts[0] + seq![COLON] + join_colon(parts.drop_first())
    }
}

/// The location components that are both shown and present, in order:
/// module, file, line number in decimal.
pub open spec fn shown_components(
    show: crate::record::ShowFlags,
    module: Option<Seq<u8>>,
    file: Option<Seq<u8>>,
    line: Option<u32>,
) -> Seq<Seq<u8>> {
    (if show.module && module is Some { seq![module->0] } else { Seq::empty() })
        + (if show.file && file is Some { seq![file->0] } else { Seq::empty() })
        + (if show.line && line is Some { seq![decimal(line->0 as nat)] } else { Seq::empty() })
}

/// Every number has at least one digit, and digits are ASCII `0` to `9`.
proof fn lemma_decimal_digits(n: nat)
    ensures
        decimal(n).len() >= 1,
        forall|i: int| 0 <= i < decimal(n).len() ==> 48 <= #[trigger] decimal(n)[i] <= 57,
    decreases n,
{
    if n >= 10 {
        lemma_decimal_digits(n / 10);
    }
}

/// When everything fits, the rendered location is exactly `[`, the shown and
/// present components joined by `:`, and `]`: no separator dangles, whichever
/// components are missing.
pub proof fn lemma_location_exact(
    show: crate::record::ShowFlags,
    module: Option<Seq<u8>>,
    file: Option<Seq<u8>>,
    line: Option<u32>,
    room: int,
)
    requires
        join_colon(shown_components(show, module, file, line)).len() + 3 <= room,
    ensures
        location_info(Seq::empty(), show, module, file, line, room) == seq![OPEN] + join_colon(
            shown_components(show, module, file, line),
        ) + seq![CLOSE],
{
    reveal_with_fuel(join_colon, 4);
    let sm = show.module && module is Some;
    let sf = show.file && file is Some;
    let sl = show.line && line is Some;
    let parts = shown_components(show, module, file, line);
    let e = Seq::<u8>::empty();
    let ms = if sm { seq![module->0] } else { Seq::<Seq<u8>>::empty() };
    let fs = if sf { seq![file->0] } else { Seq::<Seq<u8>>::empty() };
    let ls = if sl { seq![decimal(line->0 as nat)] } else { Seq::<Seq<u8>>::empty() };
    if sl {
        lemma_decimal_digits(line->0 as nat);
    }
    let d = if sl { decimal(line->0 as nat) } else { e };
    let m = if sm { module->0 } else { e };
    let f = if sf { file->0 } else { e };
    assert(parts == ms + fs + ls);
    if sm && sf && sl {
        assert(parts =~= seq![m, f, d]);
        assert(parts.drop_first() =~= seq![f, d]);
        assert(parts.drop_first().drop_first() =~= seq![d]);
    } else if sm && sf {
        assert(parts =~= seq![m, f]);
        assert(parts.drop_first() =~= seq![f]);
    } else if sm && sl {
        assert(parts =~= seq![m, d]);
        assert(parts.drop_first() =~= seq![d]);
    } else if sf && sl {
        assert(parts =~= seq![f, d]);
        assert(parts.drop_first() =~= seq![d]);
    } else if sm {
        assert(parts =~= seq![m]);
    } else if sf {
        assert(parts =~= seq![f]);
    } else if sl {
        assert(parts =~= seq![d]);
    } else {
        assert(parts =~= Seq::<Seq<u8>>::empty());
    }
    let c1 = e + seq![OPEN];
    let c2 = if sm { c1 + m + seq![COLON] } else { c1 };
    let c3 = if sf { c2 + f + seq![COLON] } else { c2 };
    let c4 = if sl { c3 + d } else { c3 };
    assert(c4.len() <= room);
    assert(location_info(e, show, module, file, line, room) == put1(trim_separator(c4, 0), seq![CLOSE], room));
    if sl {
        assert(c4.last() == d.last());
        assert(trim_separator(c4, 0) == c4);
    } else if sm || sf {
        assert(c4.last() == COLON);
        assert(trim_separator(c4, 0) == c4.drop_last());
    } else {
        assert(trim_separator(c4, 0) == c4);
    }
    assert(location_info(e, show, module, file, line, room) =~= seq![OPEN] + join_colon(parts) + seq![CLOSE]);
}

} // verus!

verus! {

/// Rendering the location only ever adds after what is already there.
pub proof fn lemma_location_extends(
    content: Seq<u8>,
    show: crate::record::ShowFlags,
    module: Option<Seq<u8>>,
    file: Option<Seq<u8>>,
    line: Option<u32>,
    room: int,
)
    ensures
        location_info(content, show, module, file, line, room).len() >= content.len(),
        location_info(content, show, module, file, line, room).subrange(0, content.len() as int)
            == content,
{
    let c1 = put1(content, seq![OPEN], room);
    let c2 = if show.module && module is Some {
        put2(c1, module->0, seq![COLON], room)
    } else {
        c1
    };
    let c3 = if show.file && file is Some {
        put2(c2, file->0, seq![COLON], room)
    } else {
        c2
    };
    let c4 = if show.line && line is Some {
        put1(c3, decimal(line->0 as nat), room)
    } else {
        c3
    };
    let n = content.len() as int;
    assert(c1.subrange(0, n) =~= content);
    assert(c2.subrange(0, n) =~= content);
    assert(c3.subrange(0, n) =~= content);
    assert(c4.subrange(0, n) =~= content);
    let c5 = trim_separator(c4, n);
    assert(c5.subrange(0, n) =~= content);
    let c6 = put1(c5, seq![CLOSE], room);
    assert(c6.subrange(0, n) =~= content);
}

} // verus!
