//! The printf subset of user event format strings.
use vstd::prelude::*;
use vstd::string::StringExecFns;
use crate::bytes::{read_u16, read_u32, u16_at, u32_at};
use crate::text::{chars_of, int_text, push_char, push_int};
use crate::types::{Argument, Endianness, FormattedStringError, ObjectHandle, Protocol, SymbolString};

verus! {

/// A table that resolves `%s` arguments: symbol handles to their text.
pub trait SymbolLookup {
    /// The symbols, by handle.
    spec fn symbol_map(&self) -> Map<u32, Seq<char>>;

    /// The table is well formed, so that lookups agree with `symbol_map`.
    spec fn lookup_ready(&self) -> bool;

    fn symbol(&self, handle: ObjectHandle) -> (r: Option<&SymbolString>)
        requires
            self.lookup_ready(),
        ensures
            match r {
                Some(s) => self.symbol_map().contains_key(handle.id()) && self.symbol_map()[handle.id()]
                    == s.0@,
                None => !self.symbol_map().contains_key(handle.id()),
            },
    ;
}

/// Length modifier seen inside a conversion specification.
#[derive(Copy, Clone, Debug, PartialEq, Eq, Structural)]
pub enum SubSpecifier {
    Plain,
    Long,
    Short,
    Octet,
}

/// What an argument decodes to, with `%s` arguments standing as their symbol handle.
#[derive(Copy, Clone, Debug, PartialEq, Eq, Structural)]
pub enum ArgSpec {
    I8(i8),
    U8(u8),
    I16(i16),
    U16(u16),
    I32(i32),
    U32(u32),
    F32(u32),
    F64(u64),
    Symbol(u32),
}

/// A user event string after formatting: the literal text around the arguments, one
/// piece more than there are arguments. Arguments are rendered separately, see
/// `render_argument`, since floating-point values are kept as bit patterns.
#[derive(Clone, Debug, PartialEq, Eq)]
pub struct FormattedString {
    pub pieces: Vec<String>,
}

impl FormattedString {
    /// The text of each piece.
    pub open spec fn pieces_view(&self) -> Seq<Seq<char>> {
        self.pieces@.map_values(|s: String| s@)
    }
}

/// Why decoding an argument failed, with a missing symbol standing as its handle.
#[derive(Copy, Clone, Debug, PartialEq, Eq, Structural)]
pub enum FormatFailure {
    InvalidSymbolTableIndex,
    SymbolLookup(u32),
    Io,
}

/// A formatter error agrees with its model.
pub open spec fn error_matches(e: FormattedStringError, m: FormatFailure) -> bool {
    match (e, m) {
        (FormattedStringError::InvalidSymbolTableIndex, FormatFailure::InvalidSymbolTableIndex) => true,
        (FormattedStringError::SymbolLookup(h), FormatFailure::SymbolLookup(k)) => h.id() == k,
        (FormattedStringError::Io, FormatFailure::Io) => true,
        _ => false,
    }
}

/// An argument decoded by the formatter agrees with its model.
pub open spec fn arg_matches(a: Argument, m: ArgSpec, syms: Map<u32, Seq<char>>) -> bool {
    match (a, m) {
        (Argument::I8(x), ArgSpec::I8(y)) => x == y,
        (Argument::U8(x), ArgSpec::U8(y)) => x == y,
        (Argument::I16(x), ArgSpec::I16(y)) => x == y,
        (Argument::U16(x), ArgSpec::U16(y)) => x == y,
        (Argument::I32(x), ArgSpec::I32(y)) => x == y,
        (Argument::U32(x), ArgSpec::U32(y)) => x == y,
        (Argument::F32(x), ArgSpec::F32(y)) => x == y,
        (Argument::F64(x), ArgSpec::F64(y)) => x == y,
        (Argument::String(s), ArgSpec::Symbol(h)) => syms.contains_key(h) && s@ == syms[h],
        _ => false,
    }
}

/// A width, padding or precision character, skipped inside a specification.
pub open spec fn is_width_or_padding(c: char) -> bool {
    ('0' <= c && c <= '9') || c == '#' || c == '.'
}

/// The 8-byte value at `pos` in the given byte order.
pub open spec fn u64_at(data: Seq<u8>, pos: int, e: Endianness) -> u64 {
    let lo = u32_at(data, pos, e);
    let hi = u32_at(data, pos + 4, e);
    match e {
        Endianness::Little => (lo as int + hi as int * 0x1_0000_0000) as u64,
        Endianness::Big => (hi as int + lo as int * 0x1_0000_0000) as u64,
    }
}

/// Bytes taken by an integer argument of the given width class: the natural width in
/// snapshot data, a full 32-bit word in streaming data.
pub open spec fn narrow_width(p: Protocol, natural: int) -> int {
    match p {
        Protocol::Snapshot => natural,
        Protocol::Streaming => 4,
    }
}

/// The argument a conversion character reads at `pos`, with the position after it;
/// `None` for a conversion the formatter does not support.
pub open spec fn convert_spec(
    c: char,
    sub: SubSpecifier,
    p: Protocol,
    e: Endianness,
    data: Seq<u8>,
    pos: int,
    syms: Map<u32, Seq<char>>,
) -> Option<Result<(ArgSpec, int), FormatFailure>> {
    let too_short = |n: int| pos + n > data.len();
    if (c == 'd' || c == 'u') && (sub == SubSpecifier::Plain || sub == SubSpecifier::Long) {
        if too_short(4) {
            Some(Err(FormatFailure::Io))
        } else if c == 'd' {
            Some(Ok((ArgSpec::I32(u32_at(data, pos, e) as i32), pos + 4)))
        } else {
            Some(Ok((ArgSpec::U32(u32_at(data, pos, e)), pos + 4)))
        }
    } else if c == 'x' || c == 'X' {
        if too_short(4) {
            Some(Err(FormatFailure::Io))
        } else {
            Some(Ok((ArgSpec::U32(u32_at(data, pos, e)), pos + 4)))
        }
    } else if c == 's' {
        let w = if p == Protocol::Snapshot { 2int } else { 4int };
        if too_short(w) {
            Some(Err(FormatFailure::Io))
        } else {
            let h: u32 = if p == Protocol::Snapshot {
                u16_at(data, pos, e) as u32
            } else {
                u32_at(data, pos, e)
            };
            if h == 0 {
                Some(Err(FormatFailure::InvalidSymbolTableIndex))
            } else if !syms.contains_key(h) {
                Some(Err(FormatFailure::SymbolLookup(h)))
            } else {
                Some(Ok((ArgSpec::Symbol(h), pos + w)))
            }
        }
    } else if c == 'f' && sub != SubSpecifier::Long {
        if too_short(4) {
            Some(Err(FormatFailure::Io))
        } else {
            Some(Ok((ArgSpec::F32(u32_at(data, pos, e)), pos + 4)))
        }
    } else if c == 'f' {
        if too_short(8) {
            Some(Err(FormatFailure::Io))
        } else {
            Some(Ok((ArgSpec::F64(u64_at(data, pos, e)), pos + 8)))
        }
    } else if (c == 'd' || c == 'u') && sub == SubSpecifier::Short {
        let w = narrow_width(p, 2);
        if too_short(w) {
            Some(Err(FormatFailure::Io))
        } else {
            let raw: u32 = if p == Protocol::Snapshot {
                u16_at(data, pos, e) as u32
            } else {
                u32_at(data, pos, e)
            };
            if c == 'd' {
                Some(Ok((ArgSpec::I16(raw as u16 as i16), pos + w)))
            } else {
                Some(Ok((ArgSpec::U16(raw as u16), pos + w)))
            }
        }
    } else if (c == 'd' || c == 'u') && sub == SubSpecifier::Octet {
        let w = narrow_width(p, 1);
        if too_short(w) {
            Some(Err(FormatFailure::Io))
        } else {
            let raw: u32 = if p == Protocol::Snapshot {
                data[pos] as u32
            } else {
                u32_at(data, pos, e)
            };
            if c == 'd' {
                Some(Ok((ArgSpec::I8(raw as u8 as i8), pos + w)))
            } else {
                Some(Ok((ArgSpec::U8(raw as u8), pos + w)))
            }
        }
    } else {
        None
    }
}

/// The formatter from character `i` on, in the given state: whether a `%` is open, the
/// length modifier seen, the position in the argument data, the finished pieces, the
/// piece being built and the arguments so far. An unsupported conversion gives back the
/// whole format string as the only piece, with no arguments.
pub open spec fn format_from(
    syms: Map<u32, Seq<char>>,
    p: Protocol,
    e: Endianness,
    fmt: Seq<char>,
    data: Seq<u8>,
    i: int,
    found: bool,
    sub: SubSpecifier,
    pos: int,
    pieces: Seq<Seq<char>>,
    cur: Seq<char>,
    args: Seq<ArgSpec>,
) -> Result<(Seq<Seq<char>>, Seq<ArgSpec>), FormatFailure>
    decreases fmt.len() - i,
{
    if i < 0 || i >= fmt.len() {
        Ok((pieces.push(cur), args))
    } else {
        let c = fmt[i];
        if c == '%' {
            if found {
                format_from(syms, p, e, fmt, data, i + 1, false, sub, pos, pieces, cur.push('%'), args)
            } else {
                format_from(syms, p, e, fmt, data, i + 1, true, SubSpecifier::Plain, pos, pieces, cur, args)
            }
        } else if found && is_width_or_padding(c) {
            format_from(syms, p, e, fmt, data, i + 1, found, sub, pos, pieces, cur, args)
        } else if found && c == 'l' {
            format_from(syms, p, e, fmt, data, i + 1, found, SubSpecifier::Long, pos, pieces, cur, args)
        } else if found && c == 'h' {
            format_from(syms, p, e, fmt, data, i + 1, found, SubSpecifier::Short, pos, pieces, cur, args)
        } else if found && c == 'b' {
            format_from(syms, p, e, fmt, data, i + 1, found, SubSpecifier::Octet, pos, pieces, cur, args)
        } else if found {
            match convert_spec(c, sub, p, e, data, pos, syms) {
                None => Ok((seq![fmt], seq![])),
                Some(Err(f)) => Err(f),
                Some(Ok((a, np))) => format_from(
                    syms,
                    p,
                    e,
                    fmt,
                    data,
                    i + 1,
                    false,
                    SubSpecifier::Plain,
                    np,
                    pieces.push(cur),
                    seq![],
                    args.push(a),
                ),
            }
        } else {
            format_from(syms, p, e, fmt, data, i + 1, found, sub, pos, pieces, cur.push(c), args)
        }
    }
}

/// What formatting `fmt` against the argument bytes `data` gives: the literal pieces and
/// the argument models, or the failure.
pub open spec fn format_spec(
    syms: Map<u32, Seq<char>>,
    p: Protocol,
    e: Endianness,
    fmt: Seq<char>,
    data: Seq<u8>,
) -> Result<(Seq<Seq<char>>, Seq<ArgSpec>), FormatFailure> {
    format_from(syms, p, e, fmt, data, 0, false, SubSpecifier::Plain, 0, seq![], seq![], seq![])
}

/// The decoded arguments agree one by one with their models.
pub open spec fn args_match(args: Seq<Argument>, specs: Seq<ArgSpec>, syms: Map<u32, Seq<char>>) -> bool {
    args.len() == specs.len() && forall|k: int| 0 <= k < args.len() ==> arg_matches(
        #[trigger] args[k],
        specs[k],
        syms,
    )
}

fn read_u64(data: &[u8], pos: usize, e: Endianness) -> (r: Option<u64>)
    ensures
        pos + 8 <= data@.len() ==> r == Some(u64_at(data@, pos as int, e)),
        pos + 8 > data@.len() ==> r.is_none(),
        r.is_some() ==> pos + 8 <= data.len(),
{
    if pos > data.len() || data.len() - pos < 8 {
        return None;
    }
    let lo = read_u32(data, pos, e).unwrap();
    let hi = read_u32(data, pos + 4, e).unwrap();
    match e {
        Endianness::Little => Some(lo as u64 + hi as u64 * 0x1_0000_0000),
        Endianness::Big => Some(hi as u64 + lo as u64 * 0x1_0000_0000),
    }
}

fn read_narrow(data: &[u8], pos: usize, p: Protocol, e: Endianness, natural: usize) -> (r: Option<(u32, usize)>)
    requires
        natural == 1 || natural == 2,
    ensures
        pos + narrow_width(p, natural as int) > data@.len() ==> r.is_none(),
        pos + narrow_width(p, natural as int) <= data@.len() ==> (r matches Some((v, q)) && q == pos
            + narrow_width(p, natural as int) && v == if p == Protocol::Streaming {
            u32_at(data@, pos as int, e)
        } else if natural == 2 {
            u16_at(data@, pos as int, e) as u32
        } else {
            data@[pos as int] as u32
        }),
{
    match p {
        Protocol::Streaming => match read_u32(data, pos, e) {
            Some(v) => Some((v, pos + 4)),
            None => None,
        },
        Protocol::Snapshot => if natural == 2 {
            match read_u16(data, pos, e) {
                Some(v) => Some((v as u32, pos + 2)),
                None => None,
            }
        } else if pos < data.len() {
            Some((data[pos] as u32, pos + 1))
        } else {
            None
        },
    }
}

fn convert<T: SymbolLookup>(
    c: char,
    sub: SubSpecifier,
    p: Protocol,
    e: Endianness,
    data: &[u8],
    pos: usize,
    table: &T,
) -> (r: Option<Result<(Argument, usize), FormattedStringError>>)
    requires
        table.lookup_ready(),
    ensures
        match convert_spec(c, sub, p, e, data@, pos as int, table.symbol_map()) {
            None => r.is_none(),
            Some(Err(f)) => r matches Some(Err(x)) && error_matches(x, f),
            Some(Ok((m, np))) => r matches Some(Ok((a, q))) && arg_matches(a, m, table.symbol_map())
                && q == np,
        },
{
    if (c == 'd' || c == 'u') && (sub == SubSpecifier::Plain || sub == SubSpecifier::Long) {
        match read_u32(data, pos, e) {
            None => Some(Err(FormattedStringError::Io)),
            Some(v) => if c == 'd' {
                Some(Ok((Argument::I32(#[verifier::truncate] (v as i32)), pos + 4)))
            } else {
                Some(Ok((Argument::U32(v), pos + 4)))
            },
        }
    } else if c == 'x' || c == 'X' {
        match read_u32(data, pos, e) {
            None => Some(Err(FormattedStringError::Io)),
            Some(v) => Some(Ok((Argument::U32(v), pos + 4))),
        }
    } else if c == 's' {
        let read = match p {
            Protocol::Snapshot => match read_u16(data, pos, e) {
                Some(v) => Some((v as u32, pos + 2)),
                None => None,
            },
            Protocol::Streaming => match read_u32(data, pos, e) {
                Some(v) => Some((v, pos + 4)),
                None => None,
            },
        };
        match read {
            None => Some(Err(FormattedStringError::Io)),
            Some((h, np)) => match ObjectHandle::new(h) {
                None => Some(Err(FormattedStringError::InvalidSymbolTableIndex)),
                Some(handle) => match table.symbol(handle) {
                    None => Some(Err(FormattedStringError::SymbolLookup(handle))),
                    Some(sym) => Some(Ok((Argument::String(sym.0.clone()), np))),
                },
            },
        }
    } else if c == 'f' && sub != SubSpecifier::Long {
        match read_u32(data, pos, e) {
            None => Some(Err(FormattedStringError::Io)),
            Some(v) => Some(Ok((Argument::F32(v), pos + 4))),
        }
    } else if c == 'f' {
        match read_u64(data, pos, e) {
            None => Some(Err(FormattedStringError::Io)),
            Some(v) => Some(Ok((Argument::F64(v), pos + 8))),
        }
    } else if (c == 'd' || c == 'u') && sub == SubSpecifier::Short {
        match read_narrow(data, pos, p, e, 2) {
            None => Some(Err(FormattedStringError::Io)),
            Some((raw, np)) => if c == 'd' {
                Some(Ok((Argument::I16(#[verifier::truncate] (#[verifier::truncate] (raw as u16) as i16)), np)))
            } else {
                Some(Ok((Argument::U16(#[verifier::truncate] (raw as u16)), np)))
            },
        }
    } else if (c == 'd' || c == 'u') && sub == SubSpecifier::Octet {
        match read_narrow(data, pos, p, e, 1) {
            None => Some(Err(FormattedStringError::Io)),
            Some((raw, np)) => if c == 'd' {
                Some(Ok((Argument::I8(#[verifier::truncate] (#[verifier::truncate] (raw as u8) as i8)), np)))
            } else {
                Some(Ok((Argument::U8(#[verifier::truncate] (raw as u8)), np)))
            },
        }
    } else {
        None
    }
}

/// Formats a user event string against its argument bytes. `%%` gives a literal `%`;
/// `%d %u %x %X` read 32-bit integers, `%hd %hu` 16-bit ones and `%bd %bu` 8-bit ones (a
/// full word each in streaming data), `%ld %lu` 32-bit ones, `%f` and `%lf` 32- and
/// 64-bit floats, `%s` a symbol handle (16 bits in snapshot data, 32 in streaming data).
/// Width, padding and precision characters are skipped. An unsupported conversion gives
/// back the format string unchanged with no arguments.
pub fn format_symbol_string<T: SymbolLookup>(
    symbol_table: &T,
    protocol: Protocol,
    endianness: Endianness,
    format_string: &str,
    arg_data: &[u8],
) -> (r: Result<(FormattedString, Vec<Argument>), FormattedStringError>)
    requires
        symbol_table.lookup_ready(),
    ensures
        match format_spec(symbol_table.symbol_map(), protocol, endianness, format_string@, arg_data@) {
            Ok((pieces, specs)) => r matches Ok((fs, args)) && fs.pieces_view() == pieces
                && args_match(args@, specs, symbol_table.symbol_map()),
            Err(f) => r matches Err(x) && error_matches(x, f),
        },
{
    let ghost syms = symbol_table.symbol_map();
    let ghost fmt = format_string@;
    let ghost data = arg_data@;
    let chars = chars_of(format_string);
    let mut pieces: Vec<String> = Vec::new();
    let mut cur = String::new();
    let mut args: Vec<Argument> = Vec::new();
    let ghost mut specs: Seq<ArgSpec> = seq![];
    let mut found = false;
    let mut sub = SubSpecifier::Plain;
    let mut pos: usize = 0;
    let mut i: usize = 0;
    assert(pieces@.map_values(|s: String| s@) =~= Seq::<Seq<char>>::empty());
    while i < chars.len()
        invariant
            chars@ == fmt,
            symbol_table.lookup_ready(),
            syms == symbol_table.symbol_map(),
            data == arg_data@,
            fmt == format_string@,
            i <= chars@.len(),
            format_spec(syms, protocol, endianness, fmt, data) == format_from(
                syms,
                protocol,
                endianness,
                fmt,
                data,
                i as int,
                found,
                sub,
                pos as int,
                pieces@.map_values(|s: String| s@),
                cur@,
                specs,
            ),
            args_match(args@, specs, syms),
        decreases chars.len() - i,
    {
        let c = chars[i];
        let ghost old_pieces = pieces@;
        let ghost old_args = args@;
        let ghost old_specs = specs;
        if c == '%' {
            if found {
                found = false;
                push_char(&mut cur, '%');
            } else {
                found = true;
                sub = SubSpecifier::Plain;
            }
        } else if found && (('0' <= c && c <= '9') || c == '#' || c == '.') {
        } else if found && c == 'l' {
            sub = SubSpecifier::Long;
        } else if found && c == 'h' {
            sub = SubSpecifier::Short;
        } else if found && c == 'b' {
            sub = SubSpecifier::Octet;
        } else if found {
            let ghost conv = convert_spec(c, sub, protocol, endianness, data, pos as int, syms);
            match convert(c, sub, protocol, endianness, arg_data, pos, symbol_table) {
                None => {
                    let whole = format_string.to_owned();
                    let fs = FormattedString { pieces: vec![whole] };
                    assert(fs.pieces_view() =~= seq![fmt]);
                    return Ok((fs, Vec::new()));
                },
                Some(Err(x)) => {
                    return Err(x);
                },
                Some(Ok((a, np))) => {
                    let ghost m = match conv {
                        Some(Ok((m, _))) => m,
                        _ => ArgSpec::I8(0),
                    };
                    let done = cur;
                    pieces.push(done);
                    cur = String::new();
                    args.push(a);
                    proof {
                        specs = specs.push(m);
                        assert(pieces@.map_values(|s: String| s@) =~= old_pieces.map_values(
                            |s: String| s@,
                        ).push(done@));
                        assert(cur@ =~= Seq::<char>::empty());
                        assert forall|k: int| 0 <= k < args@.len() implies arg_matches(
                            #[trigger] args@[k],
                            specs[k],
                            syms,
                        ) by {
                            if k < args@.len() - 1 {
                                assert(args@[k] == old_args[k]);
                                assert(specs[k] == old_specs[k]);
                            }
                        }
                    }
                    pos = np;
                    found = false;
                    sub = SubSpecifier::Plain;
                },
            }
        } else {
            push_char(&mut cur, c);
        }
        i += 1;
    }
    let done = cur;
    let ghost old_pieces = pieces@;
    pieces.push(done);
    assert(pieces@.map_values(|s: String| s@) =~= old_pieces.map_values(|s: String| s@).push(
        done@,
    ));
    Ok((FormattedString { pieces }, args))
}

/// The text of an argument; `None` for floating-point values, which the caller renders.
pub open spec fn argument_text(a: Argument) -> Option<Seq<char>> {
    match a {
        Argument::I8(x) => Some(int_text(x as int)),
        Argument::U8(x) => Some(int_text(x as int)),
        Argument::I16(x) => Some(int_text(x as int)),
        Argument::U16(x) => Some(int_text(x as int)),
        Argument::I32(x) => Some(int_text(x as int)),
        Argument::U32(x) => Some(int_text(x as int)),
        Argument::F32(_) => None,
        Argument::F64(_) => None,
        Argument::String(s) => Some(s@),
    }
}

/// Renders an integer or string argument in decimal or as is.
pub fn render_argument(a: &Argument) -> (r: Option<String>)
    ensures
        match argument_text(*a) {
            Some(t) => r matches Some(s) && s@ == t,
            None => r.is_none(),
        },
{
    let mut s = String::new();
    match a {
        Argument::I8(x) => push_int(&mut s, *x as i64),
        Argument::U8(x) => push_int(&mut s, *x as i64),
        Argument::I16(x) => push_int(&mut s, *x as i64),
        Argument::U16(x) => push_int(&mut s, *x as i64),
        Argument::I32(x) => push_int(&mut s, *x as i64),
        Argument::U32(x) => push_int(&mut s, *x as i64),
        Argument::F32(_) => return None,
        Argument::F64(_) => return None,
        Argument::String(t) => s.append(t.as_str()),
    }
    Some(s)
}

/// The pieces joined with the rendered arguments between them.
pub open spec fn interleave(pieces: Seq<Seq<char>>, texts: Seq<Seq<char>>) -> Seq<char>
    decreases pieces.len(),
{
    if pieces.len() == 0 {
        seq![]
    } else if pieces.len() == 1 || texts.len() == 0 {
        pieces.last()
    } else {
        interleave(pieces.drop_last(), texts.drop_last()) + texts.last() + pieces.last()
    }
}

impl FormattedString {
    /// The whole text, with each argument rendered by `render_argument`; `None` when an
    /// argument is a floating-point value or the argument count does not fit the pieces.
    pub fn render(&self, args: &Vec<Argument>) -> (r: Option<String>)
        ensures
            self.pieces@.len() == args@.len() + 1 && (forall|k: int|
                0 <= k < args@.len() ==> #[trigger] argument_text(args@[k]) is Some) ==> (r matches Some(
                s) && s@ == interleave(
                self.pieces_view(),
                args@.map_values(|a: Argument| argument_text(a).unwrap()),
            )),
            !(self.pieces@.len() == args@.len() + 1 && (forall|k: int|
                0 <= k < args@.len() ==> #[trigger] argument_text(args@[k]) is Some)) ==> r.is_none(),
    {
        if self.pieces.len() == 0 || self.pieces.len() - 1 != args.len() {
            return None;
        }
        let ghost texts = args@.map_values(|a: Argument| argument_text(a).unwrap());
        let mut out = String::new();
        out.append(self.pieces[0].as_str());
        let mut k: usize = 0;
        assert(self.pieces_view().take(1) =~= seq![self.pieces_view()[0]]);
        while k < args.len()
            invariant
                self.pieces@.len() == args@.len() + 1,
                k <= args@.len(),
                forall|j: int| 0 <= j < k ==> #[trigger] argument_text(args@[j]) is Some,
                texts == args@.map_values(|a: Argument| argument_text(a).unwrap()),
                out@ == interleave(self.pieces_view().take(k + 1), texts.take(k as int)),
            decreases args.len() - k,
        {
            match render_argument(&args[k]) {
                None => {
                    return None;
                },
                Some(t) => {
                    out.append(t.as_str());
                    out.append(self.pieces[k + 1].as_str());
                },
            }
            k += 1;
            assert(self.pieces_view().take(k + 1).drop_last() =~= self.pieces_view().take(k as int));
            assert(texts.take(k as int).drop_last() =~= texts.take(k - 1));
        }
        assert(self.pieces_view().take(k + 1) =~= self.pieces_view());
        assert(texts.take(k as int) =~= texts);
        Some(out)
    }
}

} // verus!
