use pronyx::arch::Arch;
use pronyx::errno::Errno;
use pronyx::errors::{Error, WithContext};
use pronyx::script::{
    encode_statement, parse_statement, LoadStatement, LoadStatementMmapAnonymous,
    LoadStatementMmapFile, LoadStatementOpen, LoadStatementStackExec, LoadStatementStart,
};

fn failed() -> Result<u8, Errno> {
    Err(Errno { raw: 2 })
}

#[test]
fn context_on_success_changes_nothing() {
    let ok: Result<u8, Errno> = Ok(7);
    assert_eq!(ok.errno(Errno { raw: 5 }).unwrap(), 7);
    let ok: Result<u8, Errno> = Ok(7);
    assert_eq!(ok.context("never".to_string()).unwrap(), 7);
    let ok: Result<u8, Errno> = Ok(7);
    let called = std::cell::Cell::new(false);
    let r = ok.with_context(|| {
        called.set(true);
        "never".to_string()
    });
    assert_eq!(r.unwrap(), 7);
    assert!(!called.get());
}

#[test]
fn context_on_failure() {
    let e = failed().errno(Errno { raw: 5 }).unwrap_err();
    assert_eq!((e.errno.raw, e.msg.clone(), e.source.clone()), (5, None, None));
    let e = failed().context("reading".to_string()).unwrap_err();
    assert_eq!((e.errno.raw, e.msg.clone()), (2, Some("reading".to_string())));
    let e = failed().with_context(|| format!("file {}", 3)).unwrap_err();
    assert_eq!((e.errno.raw, e.msg.clone()), (2, Some("file 3".to_string())));
}

#[test]
fn context_on_other_errors() {
    let r: Result<(), std::io::Error> = Err(std::io::Error::from_raw_os_error(13));
    let e = r.context("opening".to_string()).unwrap_err();
    assert_eq!(e.errno.raw, 13);
    assert_eq!(e.msg, Some("opening".to_string()));
    assert!(e.source.is_some());
    let r: Result<(), Error> = Err(Error::msg("first".to_string()));
    let e = r.errno(Errno { raw: 22 }).unwrap_err();
    assert_eq!((e.errno.raw, e.msg.clone()), (22, Some("first".to_string())));
}

fn statements() -> Vec<LoadStatement> {
    let start = LoadStatementStart {
        stack_pointer: 0xbfff_f000,
        entry_point: 0x1_0100,
        at_phdr: 0x1_0034,
        at_phent: 32,
        at_phnum: 7,
        at_entry: 0x1_0100,
        at_execfn: 0xbfff_ff00,
    };
    vec![
        LoadStatement::Open(LoadStatementOpen { string_address: 0x1000 }),
        LoadStatement::MmapFile(LoadStatementMmapFile {
            addr: 0x1_0000,
            length: 0x2000,
            prot: 5,
            offset: 0x1000,
            clear_length: 0x10,
        }),
        LoadStatement::MmapAnonymous(LoadStatementMmapAnonymous {
            addr: 0x2_0000,
            length: 0x1000,
            prot: 3,
        }),
        LoadStatement::OpenNext(LoadStatementOpen { string_address: 0x2000 }),
        LoadStatement::MakeStackExec(LoadStatementStackExec { start: 0xbfff_0000 }),
        LoadStatement::StartTraced(start),
        LoadStatement::Start(start),
    ]
}

#[test]
fn what_is_encoded_is_parsed_back() {
    for arch in [Arch::X86, Arch::X86_64, Arch::Arm, Arch::Aarch64] {
        let mut script = vec![0xee, 0xee, 0xee];
        for stmt in statements() {
            encode_statement(arch, &stmt, &mut script);
        }
        script.push(0xee);
        let mut cursor = 3;
        for stmt in statements() {
            let (parsed, next) = parse_statement(arch, &script, cursor).unwrap();
            assert_eq!(parsed, stmt);
            assert_eq!(next, cursor + arch.word_size() * stmt.words().len());
            cursor = next;
        }
        assert_eq!(cursor, script.len() - 1);
    }
}

#[test]
fn encoded_bytes() {
    let stmt = LoadStatement::Open(LoadStatementOpen { string_address: 0x0102_0304_0506_0708 });
    let mut out = vec![9];
    encode_statement(Arch::X86_64, &stmt, &mut out);
    assert_eq!(out, vec![9, 2, 0, 0, 0, 0, 0, 0, 0, 8, 7, 6, 5, 4, 3, 2, 1]);
    let mut out = Vec::new();
    encode_statement(Arch::Arm, &stmt, &mut out);
    assert_eq!(out, vec![2, 0, 0, 0, 8, 7, 6, 5]);
    assert_eq!(stmt.words(), vec![2, 0x0102_0304_0506_0708]);
    assert_eq!(
        LoadStatement::MakeStackExec(LoadStatementStackExec { start: 1 }).words(),
        vec![5, 1]
    );
}
