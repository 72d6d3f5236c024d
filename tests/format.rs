use trace_recorder_parser::format::{format_symbol_string, render_argument, FormattedString};
use trace_recorder_parser::snapshot::symbol_table::{SymbolCrc6, SymbolTable};
use trace_recorder_parser::streaming::entry_table::EntryTable;
use trace_recorder_parser::types::{
    Argument, Endianness, FormattedStringError, ObjectHandle, Protocol, SymbolString, TrimmedString,
};

/// The text with every argument rendered, floats through their bit patterns.
fn text(fs: &FormattedString, args: &[Argument]) -> String {
    let mut out = fs.pieces[0].clone();
    for (i, a) in args.iter().enumerate() {
        let t = match a {
            Argument::F32(bits) => format!("{}", f32::from_bits(*bits)),
            Argument::F64(bits) => format!("{}", f64::from_bits(*bits)),
            other => render_argument(other).unwrap(),
        };
        out.push_str(&t);
        out.push_str(&fs.pieces[i + 1]);
    }
    out
}

#[test]
fn user_string_formatting() {
    let st = SymbolTable::new();
    let fmt = "my int %d = %02u";
    let out = "my int -1 = 23";
    let arg_bytes: Vec<u8> = i32::to_le_bytes(-1).into_iter().chain(u32::to_le_bytes(23)).collect();
    let (fs, args) =
        format_symbol_string(&st, Protocol::Snapshot, Endianness::Little, fmt, &arg_bytes).unwrap();
    assert_eq!(fs.render(&args).unwrap(), out);
    assert_eq!(args, vec![Argument::I32(-1), Argument::U32(23)]);

    let fmt = "foo bar biz %%";
    let out = "foo bar biz %";
    let (fs, args) =
        format_symbol_string(&st, Protocol::Snapshot, Endianness::Little, fmt, &[]).unwrap();
    assert_eq!(fs.render(&args).unwrap(), out);
    assert_eq!(args, vec![]);
}

#[test]
fn types_string_formatting() {
    let mut sn_st = SymbolTable::new();
    let mut sr_st = EntryTable::new();

    for (p, e) in [(Protocol::Snapshot, 0), (Protocol::Streaming, 1)] {
        let fmt = "literal";
        let (fs, args) = if e == 0 {
            format_symbol_string(&sn_st, p, Endianness::Little, fmt, &[]).unwrap()
        } else {
            format_symbol_string(&sr_st, p, Endianness::Little, fmt, &[]).unwrap()
        };
        assert_eq!(fs.render(&args).unwrap(), fmt);
        assert_eq!(args, vec![]);

        let fmt = "foo bar biz %%";
        let (fs, args) = if e == 0 {
            format_symbol_string(&sn_st, p, Endianness::Little, fmt, &[]).unwrap()
        } else {
            format_symbol_string(&sr_st, p, Endianness::Little, fmt, &[]).unwrap()
        };
        assert_eq!(fs.render(&args).unwrap(), "foo bar biz %");
        assert_eq!(args, vec![]);

        let fmt = "my int %d = %02u";
        let arg_bytes: Vec<u8> =
            i32::to_le_bytes(-1).into_iter().chain(u32::to_le_bytes(23)).collect();
        let (fs, args) = if e == 0 {
            format_symbol_string(&sn_st, p, Endianness::Little, fmt, &arg_bytes).unwrap()
        } else {
            format_symbol_string(&sr_st, p, Endianness::Little, fmt, &arg_bytes).unwrap()
        };
        assert_eq!(fs.render(&args).unwrap(), "my int -1 = 23");
        assert_eq!(args, vec![Argument::I32(-1), Argument::U32(23)]);

        let fmt = "my float %f";
        let arg_bytes: Vec<u8> = f32::to_le_bytes(-1.1).into_iter().collect();
        let (fs, args) = if e == 0 {
            format_symbol_string(&sn_st, p, Endianness::Little, fmt, &arg_bytes).unwrap()
        } else {
            format_symbol_string(&sr_st, p, Endianness::Little, fmt, &arg_bytes).unwrap()
        };
        assert_eq!(text(&fs, &args), "my float -1.1");
        assert_eq!(args, vec![Argument::F32((-1.1_f32).to_bits())]);
        assert!(fs.render(&args).is_none());
    }

    let fmt = "small int %bd = medium int %hd";
    let arg_bytes: Vec<u8> = i8::to_le_bytes(-4).into_iter().chain(i16::to_le_bytes(-25)).collect();
    let (fs, args) =
        format_symbol_string(&sn_st, Protocol::Snapshot, Endianness::Little, fmt, &arg_bytes)
            .unwrap();
    assert_eq!(fs.render(&args).unwrap(), "small int -4 = medium int -25");
    assert_eq!(args, vec![Argument::I8(-4), Argument::I16(-25)]);
    let arg_bytes: Vec<u8> = i32::to_le_bytes(-4_i8 as i32)
        .into_iter()
        .chain(i32::to_le_bytes(-25_i16 as i32))
        .collect();
    let (fs, args) =
        format_symbol_string(&sr_st, Protocol::Streaming, Endianness::Little, fmt, &arg_bytes)
            .unwrap();
    assert_eq!(fs.render(&args).unwrap(), "small int -4 = medium int -25");
    assert_eq!(args, vec![Argument::I8(-4), Argument::I16(-25)]);

    let fmt = "my string = '%s'";
    let out = "my string = 'foo'";
    let str_arg = b"foo\0";
    let handle = ObjectHandle::new(1).unwrap();
    let symbol: SymbolString = TrimmedString::from_raw(str_arg).into_symbol();
    sn_st.insert(handle, None, SymbolCrc6::new(str_arg), symbol.clone());
    sr_st.entry(handle).set_symbol(symbol.clone());
    let arg_bytes = u32::to_le_bytes(handle.get());
    let (fs, args) =
        format_symbol_string(&sn_st, Protocol::Snapshot, Endianness::Little, fmt, &arg_bytes)
            .unwrap();
    assert_eq!(fs.render(&args).unwrap(), out);
    assert_eq!(args, vec![Argument::String(symbol.0.clone())]);
    let (fs, args) =
        format_symbol_string(&sr_st, Protocol::Streaming, Endianness::Little, fmt, &arg_bytes)
            .unwrap();
    assert_eq!(fs.render(&args).unwrap(), out);
    assert_eq!(args, vec![Argument::String(symbol.0)]);
}

#[test]
fn formatting_errors_and_fallback() {
    let st = SymbolTable::new();
    // Too little argument data.
    assert_eq!(
        format_symbol_string(&st, Protocol::Snapshot, Endianness::Little, "%d", &[1, 2]),
        Err(FormattedStringError::Io)
    );
    // A zero symbol handle.
    assert_eq!(
        format_symbol_string(&st, Protocol::Streaming, Endianness::Little, "%s", &[0, 0, 0, 0]),
        Err(FormattedStringError::InvalidSymbolTableIndex)
    );
    // A missing symbol.
    assert_eq!(
        format_symbol_string(&st, Protocol::Snapshot, Endianness::Little, "%s", &[5, 0]),
        Err(FormattedStringError::SymbolLookup(ObjectHandle::new(5).unwrap()))
    );
    // An unsupported conversion gives the raw format string back.
    let (fs, args) =
        format_symbol_string(&st, Protocol::Snapshot, Endianness::Little, "x=%q %d", &[1, 0, 0, 0])
            .unwrap();
    assert_eq!(fs.pieces, vec!["x=%q %d".to_string()]);
    assert!(args.is_empty());
}

#[test]
fn formatting_big_endian_and_long() {
    let st = SymbolTable::new();
    let (fs, args) = format_symbol_string(
        &st,
        Protocol::Snapshot,
        Endianness::Big,
        "%x|%ld|%lu|%hu|%bu",
        &[0, 0, 1, 0, 0xFF, 0xFF, 0xFF, 0xFE, 0, 0, 0, 9, 0x12, 0x34, 0x7F],
    )
    .unwrap();
    assert_eq!(
        args,
        vec![
            Argument::U32(256),
            Argument::I32(-2),
            Argument::U32(9),
            Argument::U16(0x1234),
            Argument::U8(0x7F)
        ]
    );
    assert_eq!(fs.render(&args).unwrap(), "256|-2|9|4660|127");
}

#[test]
fn render_arguments() {
    assert_eq!(render_argument(&Argument::I32(i32::MIN)).unwrap(), "-2147483648");
    assert_eq!(render_argument(&Argument::U32(u32::MAX)).unwrap(), "4294967295");
    assert_eq!(render_argument(&Argument::U8(0)).unwrap(), "0");
    assert_eq!(render_argument(&Argument::String("s".into())).unwrap(), "s");
    assert!(render_argument(&Argument::F64(0)).is_none());
}
