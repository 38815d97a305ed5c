use pronyx::arch::Arch;
use pronyx::loader::{Fatal, Loader, Phase, Request, Terminal};
use pronyx::script::{
    parse_statement, LoadStatement, LoadStatementMmapAnonymous, LoadStatementMmapFile,
    LoadStatementOpen, LoadStatementStackExec, LoadStatementStart, ScriptError,
};

const SP: u64 = 0x7ffd_0000_1000;
const PATH: u64 = 0x7ffd_0000_2000;
const H: u64 = 0x40_0040;

fn word(arch: Arch, out: &mut Vec<u8>, w: u64) {
    let n = arch.word_size();
    out.extend_from_slice(&w.to_le_bytes()[..n]);
}

fn record(arch: Arch, out: &mut Vec<u8>, words: &[u64]) {
    for w in words {
        word(arch, out, *w);
    }
}

fn start_words(tag: u64, entry: u64) -> Vec<u64> {
    vec![tag, SP, entry, H, 56, 9, entry, PATH]
}

/// What the simulated process looks like to the interpreter.
struct Machine {
    arch: Arch,
    stack: Vec<u64>,
    path: Vec<u8>,
    next_fd: u64,
    fail_call: Option<u64>,
    requests: Vec<Request>,
}

impl Machine {
    fn new(arch: Arch) -> Machine {
        let stack = vec![
            2, 0x1000, 0x1008, 0, // argc, argv[0], argv[1], null
            0x2000, 0, // envp[0], null
            3, 0x11, 4, 0x22, 5, 0x33, 6, 4096, 7, 0x44, 9, 0x55, 31, 0x66, 0, 0,
        ];
        Machine {
            arch,
            stack,
            path: b"/lib/ld.so\0".to_vec(),
            next_fd: 3,
            fail_call: None,
            requests: Vec::new(),
        }
    }

    fn answer(&mut self, request: &Request) -> u64 {
        let ws = self.arch.word_size() as u64;
        match *request {
            Request::Syscall { number, args } => {
                if self.fail_call == Some(number) {
                    return self.arch.word_max() - 1;
                }
                let (open, close, map) = match self.arch {
                    Arch::X86 | Arch::Arm => (5, 6, 192),
                    Arch::X86_64 => (2, 3, 9),
                    Arch::Aarch64 => (56, 57, 222),
                };
                if number == open {
                    let fd = self.next_fd;
                    self.next_fd += 1;
                    fd
                } else if number == close {
                    0
                } else if number == map {
                    args[0]
                } else {
                    0
                }
            }
            Request::ReadWord { addr } => self.stack[((addr - SP) / ws) as usize],
            Request::WriteWord { addr, value } => {
                self.stack[((addr - SP) / ws) as usize] = value;
                0
            }
            Request::ReadByte { addr } => self.path[(addr - PATH) as usize] as u64,
            Request::Clear { .. } => 0,
            Request::Finish(_) => 0,
        }
    }

    fn run(&mut self, script: &[u8]) -> (Loader, Terminal) {
        let mut loader = Loader::new(self.arch);
        let mut reply = 0;
        for _ in 0..10_000 {
            let request = loader.resume(script, reply);
            self.requests.push(request);
            if let Request::Finish(t) = request {
                return (loader, t);
            }
            reply = self.answer(&request);
        }
        panic!("the interpreter did not finish");
    }
}

fn scenario(arch: Arch) -> Vec<u8> {
    let mut script = Vec::new();
    record(arch, &mut script, &[2, PATH]);
    record(arch, &mut script, &[3, 0x40_0000, 0x2000, 0x5, 0, 0]);
    record(arch, &mut script, &start_words(6, 0x40_0100));
    script
}

#[test]
fn end_to_end_scenario() {
    let arch = Arch::X86_64;
    let mut m = Machine::new(arch);
    let (loader, t) = m.run(&scenario(arch));
    assert_eq!(t, Terminal::Jump { stack_pointer: SP, entry_point: 0x40_0100 });
    assert_eq!(m.requests[0], Request::Syscall { number: 2, args: [PATH, 0, 0, 0, 0, 0] });
    assert_eq!(
        m.requests[1],
        Request::Syscall { number: 9, args: [0x40_0000, 0x2000, 0x5, 0x12, 3, 0] }
    );
    assert_eq!(m.requests[2], Request::Syscall { number: 3, args: [3, 0, 0, 0, 0, 0] });
    // AT_PHDR, AT_PHENT, AT_PHNUM, AT_BASE, AT_ENTRY, AT_EXECFN are patched; AT_PAGESZ is not.
    assert_eq!(
        &m.stack[6..],
        &[3, H, 4, 56, 5, 9, 6, 4096, 7, 0x40_0000, 9, 0x40_0100, 31, PATH, 0, 0]
    );
    assert_eq!(&m.stack[..6], &[2, 0x1000, 0x1008, 0, 0x2000, 0]);
    // The process is named after the base name of the path: "ld.so".
    let last = m.requests.len() - 1;
    assert_eq!(
        m.requests[last - 1],
        Request::Syscall { number: 157, args: [15, PATH + 5, 0, 0, 0, 0] }
    );
    assert_eq!(m.requests[last], Request::Finish(t));
    assert_eq!(loader.descriptor, None);
    assert_eq!(loader.image_base, Some(0x40_0000));
    assert_eq!(loader.phase, Phase::Finished(t));
}

#[test]
fn end_to_end_order_of_requests() {
    let arch = Arch::X86_64;
    let mut m = Machine::new(arch);
    m.run(&scenario(arch));
    let writes: Vec<Request> = m
        .requests
        .iter()
        .filter(|r| matches!(r, Request::WriteWord { .. }))
        .cloned()
        .collect();
    assert_eq!(
        writes,
        vec![
            Request::WriteWord { addr: SP + 8 * 7, value: H },
            Request::WriteWord { addr: SP + 8 * 9, value: 56 },
            Request::WriteWord { addr: SP + 8 * 11, value: 9 },
            Request::WriteWord { addr: SP + 8 * 15, value: 0x40_0000 },
            Request::WriteWord { addr: SP + 8 * 17, value: 0x40_0100 },
            Request::WriteWord { addr: SP + 8 * 19, value: PATH },
        ]
    );
    // The file is closed before the stack is touched, and nothing follows the transfer.
    let close = m.requests.iter().position(|r| matches!(r, Request::Syscall { number: 3, .. }));
    let first_read = m.requests.iter().position(|r| matches!(r, Request::ReadWord { .. }));
    assert!(close.unwrap() < first_read.unwrap());
    assert_eq!(m.requests[3], Request::ReadWord { addr: SP });
    assert_eq!(m.requests[4], Request::ReadWord { addr: SP + 8 * 3 });
}

#[test]
fn replay_is_deterministic() {
    let arch = Arch::X86_64;
    let mut a = Machine::new(arch);
    let mut b = Machine::new(arch);
    let (la, ta) = a.run(&scenario(arch));
    let (lb, tb) = b.run(&scenario(arch));
    assert_eq!(a.requests, b.requests);
    assert_eq!(a.stack, b.stack);
    assert_eq!(la, lb);
    assert_eq!(ta, tb);
}

#[test]
fn fatal_when_the_stream_runs_out() {
    let arch = Arch::X86_64;
    let mut script = Vec::new();
    record(arch, &mut script, &[2, PATH]);
    record(arch, &mut script, &[3, 0x40_0000, 0x2000, 0x5, 0, 0]);
    let mut m = Machine::new(arch);
    let (loader, t) = m.run(&script);
    assert_eq!(t, Terminal::Exit(Fatal::BadStatement));
    assert_eq!(Fatal::BadStatement.exit_status(), 1);
    assert_eq!(m.requests.len(), 3);
    assert_eq!(loader.cursor, script.len());
    // Resumed again, it stays where it is.
    let mut again = loader;
    assert_eq!(again.resume(&script, 77), Request::Finish(t));
    assert_eq!(again, loader);
}

#[test]
fn fatal_on_empty_stream_and_zeroed_memory() {
    let mut m = Machine::new(Arch::X86_64);
    let (_, t) = m.run(&[]);
    assert_eq!(t, Terminal::Exit(Fatal::BadStatement));
    let mut m = Machine::new(Arch::X86_64);
    let (_, t) = m.run(&[0u8; 64]);
    assert_eq!(t, Terminal::Exit(Fatal::BadStatement));
    assert_eq!(m.requests.len(), 1);
}

#[test]
fn fatal_on_a_cut_record() {
    let arch = Arch::X86_64;
    let mut script = scenario(arch);
    script.truncate(script.len() - 1);
    let mut m = Machine::new(arch);
    let (_, t) = m.run(&script);
    assert_eq!(t, Terminal::Exit(Fatal::BadStatement));
    assert_eq!(m.stack, Machine::new(arch).stack);
}

#[test]
fn exit_statuses_are_distinct_and_not_zero() {
    let all = [
        Fatal::BadStatement,
        Fatal::BadDescriptorState,
        Fatal::OpenFailed,
        Fatal::CloseFailed,
        Fatal::MapFailed,
        Fatal::ProtectFailed,
        Fatal::BadStack,
        Fatal::BadPath,
    ];
    for (i, a) in all.iter().enumerate() {
        assert_ne!(a.exit_status(), 0);
        for b in &all[i + 1..] {
            assert_ne!(a.exit_status(), b.exit_status());
        }
    }
    assert_eq!(Fatal::BadPath.exit_status(), 8);
}

#[test]
fn open_twice_is_a_protocol_error() {
    let arch = Arch::X86_64;
    let mut script = Vec::new();
    record(arch, &mut script, &[2, PATH]);
    record(arch, &mut script, &[2, PATH]);
    let mut m = Machine::new(arch);
    let (loader, t) = m.run(&script);
    assert_eq!(t, Terminal::Exit(Fatal::BadDescriptorState));
    assert_eq!(m.requests.len(), 2);
    assert_eq!(loader.descriptor, Some(3));
}

#[test]
fn statements_that_need_a_file_fail_without_one() {
    let arch = Arch::X86_64;
    for words in [
        vec![1, PATH],
        vec![3, 0x40_0000, 0x2000, 0x5, 0, 0],
        start_words(6, 0x40_0100),
        start_words(7, 0x40_0100),
    ] {
        let mut script = Vec::new();
        record(arch, &mut script, &words);
        let mut m = Machine::new(arch);
        let (_, t) = m.run(&script);
        assert_eq!(t, Terminal::Exit(Fatal::BadDescriptorState));
        assert_eq!(m.requests.len(), 1);
    }
}

#[test]
fn open_next_closes_first_and_resets_the_base() {
    let arch = Arch::X86_64;
    let mut script = Vec::new();
    record(arch, &mut script, &[2, PATH]);
    record(arch, &mut script, &[3, 0x40_0000, 0x1000, 0x5, 0, 0]);
    record(arch, &mut script, &[3, 0x60_0000, 0x1000, 0x3, 0x1000, 0]);
    record(arch, &mut script, &[1, PATH + 0x100]);
    record(arch, &mut script, &[3, 0x7f00_0000, 0x1000, 0x5, 0, 0]);
    record(arch, &mut script, &start_words(6, 0x7f00_0040));
    let mut m = Machine::new(arch);
    let (loader, t) = m.run(&script);
    assert_eq!(t, Terminal::Jump { stack_pointer: SP, entry_point: 0x7f00_0040 });
    assert_eq!(m.requests[3], Request::Syscall { number: 3, args: [3, 0, 0, 0, 0, 0] });
    assert_eq!(m.requests[4], Request::Syscall { number: 2, args: [PATH + 0x100, 0, 0, 0, 0, 0] });
    assert_eq!(
        m.requests[5],
        Request::Syscall { number: 9, args: [0x7f00_0000, 0x1000, 0x5, 0x12, 4, 0] }
    );
    assert_eq!(m.requests[6], Request::Syscall { number: 3, args: [4, 0, 0, 0, 0, 0] });
    assert_eq!(loader.image_base, Some(0x7f00_0000));
    assert_eq!(m.stack[15], 0x7f00_0000);
}

#[test]
fn clear_length_zeroes_the_tail() {
    let arch = Arch::X86_64;
    let mut script = Vec::new();
    record(arch, &mut script, &[2, PATH]);
    record(arch, &mut script, &[3, 0x60_0000, 0x3000, 0x3, 0x2000, 0x123]);
    record(arch, &mut script, &[4, 0x60_3000, 0x5000, 0x3]);
    record(arch, &mut script, &[5, 0x7ffd_0000_0000]);
    record(arch, &mut script, &start_words(7, 0x40_0100));
    let mut m = Machine::new(arch);
    let (_, t) = m.run(&script);
    assert_eq!(t, Terminal::Restart { stack_pointer: SP, entry_point: 0x40_0100 });
    assert_eq!(
        m.requests[1],
        Request::Syscall { number: 9, args: [0x60_0000, 0x3000, 0x3, 0x12, 3, 0x2000] }
    );
    assert_eq!(m.requests[2], Request::Clear { addr: 0x60_3000 - 0x123, length: 0x123 });
    assert_eq!(
        m.requests[3],
        Request::Syscall { number: 9, args: [0x60_3000, 0x5000, 0x3, 0x32, u64::MAX, 0] }
    );
    assert_eq!(
        m.requests[4],
        Request::Syscall { number: 10, args: [0x7ffd_0000_0000, 1, 0x0100_0007, 0, 0, 0] }
    );
}

#[test]
fn clearing_more_than_is_mapped_is_a_bad_statement() {
    let arch = Arch::X86_64;
    let mut script = Vec::new();
    record(arch, &mut script, &[2, PATH]);
    record(arch, &mut script, &[3, 0x60_0000, 0x1000, 0x3, 0, 0x1001]);
    let mut m = Machine::new(arch);
    let (_, t) = m.run(&script);
    assert_eq!(t, Terminal::Exit(Fatal::BadStatement));
    assert_eq!(m.requests.len(), 2);
}

#[test]
fn failed_calls_are_fatal() {
    let arch = Arch::X86_64;
    let mut script = Vec::new();
    record(arch, &mut script, &[2, PATH]);
    record(arch, &mut script, &[5, 0x7ffd_0000_0000]);
    record(arch, &mut script, &[3, 0x60_0000, 0x1000, 0x3, 0, 0]);
    record(arch, &mut script, &start_words(6, 0x40_0100));
    for (call, fatal) in [
        (2, Fatal::OpenFailed),
        (10, Fatal::ProtectFailed),
        (9, Fatal::MapFailed),
        (3, Fatal::CloseFailed),
    ] {
        let mut m = Machine::new(arch);
        m.fail_call = Some(call);
        let (_, t) = m.run(&script);
        assert_eq!(t, Terminal::Exit(fatal));
    }
}

#[test]
fn mapping_must_land_at_its_address() {
    let arch = Arch::X86_64;
    let mut script = Vec::new();
    record(arch, &mut script, &[4, 0x60_0000, 0x1000, 0x3]);
    let mut loader = Loader::new(arch);
    let request = loader.resume(&script, 0);
    assert_eq!(
        request,
        Request::Syscall { number: 9, args: [0x60_0000, 0x1000, 0x3, 0x32, u64::MAX, 0] }
    );
    assert_eq!(loader.resume(&script, 0x60_1000), Request::Finish(Terminal::Exit(Fatal::MapFailed)));
}

#[test]
fn stack_without_argv_terminator_is_fatal() {
    let arch = Arch::X86_64;
    let mut m = Machine::new(arch);
    m.stack[3] = 0x1010;
    let before = m.stack.clone();
    let (_, t) = m.run(&scenario(arch));
    assert_eq!(t, Terminal::Exit(Fatal::BadStack));
    assert_eq!(m.stack, before);
}

#[test]
fn aarch64_opens_with_openat() {
    let arch = Arch::Aarch64;
    let mut m = Machine::new(arch);
    let (_, t) = m.run(&scenario(arch));
    assert_eq!(t, Terminal::Jump { stack_pointer: SP, entry_point: 0x40_0100 });
    assert_eq!(
        m.requests[0],
        Request::Syscall { number: 56, args: [(-100i64) as u64, PATH, 0, 0, 0, 0] }
    );
    assert_eq!(
        m.requests[1],
        Request::Syscall { number: 222, args: [0x40_0000, 0x2000, 0x5, 0x12, 3, 0] }
    );
    assert_eq!(m.requests[2], Request::Syscall { number: 57, args: [3, 0, 0, 0, 0, 0] });
    let last = m.requests.len() - 1;
    assert_eq!(
        m.requests[last - 1],
        Request::Syscall { number: 167, args: [15, PATH + 5, 0, 0, 0, 0] }
    );
}

#[test]
fn arm_maps_in_pages_and_reads_short_words() {
    let arch = Arch::Arm;
    let sp: u64 = 0xbeff_f000;
    let path: u64 = 0xbeff_f800;
    let mut script = Vec::new();
    record(arch, &mut script, &[2, path]);
    record(arch, &mut script, &[3, 0x1_0000, 0x2000, 0x5, 0x3000, 0]);
    record(arch, &mut script, &[4, 0x2_0000, 0x1000, 0x3]);
    record(arch, &mut script, &[6, sp, 0x1_0100, 0x1_0034, 32, 7, 0x1_0100, path]);
    assert_eq!(script.len(), 4 * (2 + 6 + 4 + 8));
    let mut loader = Loader::new(arch);
    assert_eq!(
        loader.resume(&script, 0),
        Request::Syscall { number: 5, args: [path, 0, 0, 0, 0, 0] }
    );
    assert_eq!(
        loader.resume(&script, 3),
        Request::Syscall { number: 192, args: [0x1_0000, 0x2000, 0x5, 0x12, 3, 3] }
    );
    assert_eq!(
        loader.resume(&script, 0x1_0000),
        Request::Syscall { number: 192, args: [0x2_0000, 0x1000, 0x3, 0x32, 0xffff_ffff, 0] }
    );
    assert_eq!(
        loader.resume(&script, 0x2_0000),
        Request::Syscall { number: 6, args: [3, 0, 0, 0, 0, 0] }
    );
    assert_eq!(loader.resume(&script, 0), Request::ReadWord { addr: sp });
    assert_eq!(loader.resume(&script, 1), Request::ReadWord { addr: sp + 4 * 2 });
    assert_eq!(loader.resume(&script, 0), Request::ReadWord { addr: sp + 4 * 3 });
    assert_eq!(loader.resume(&script, 0), Request::ReadWord { addr: sp + 4 * 4 });
    assert_eq!(loader.resume(&script, 9), Request::WriteWord { addr: sp + 4 * 5, value: 0x1_0100 });
    assert_eq!(loader.resume(&script, 0), Request::ReadWord { addr: sp + 4 * 6 });
    assert_eq!(loader.resume(&script, 0), Request::ReadByte { addr: path });
    assert_eq!(loader.resume(&script, b'a' as u64), Request::ReadByte { addr: path + 1 });
    assert_eq!(loader.resume(&script, b'/' as u64), Request::ReadByte { addr: path + 2 });
    assert_eq!(loader.resume(&script, b'b' as u64), Request::ReadByte { addr: path + 3 });
    assert_eq!(
        loader.resume(&script, 0),
        Request::Syscall { number: 172, args: [15, path + 2, 0, 0, 0, 0] }
    );
    assert_eq!(
        loader.resume(&script, 0),
        Request::Finish(Terminal::Jump { stack_pointer: sp, entry_point: 0x1_0100 })
    );
}

#[test]
fn negative_results_depend_on_the_word_size() {
    let mut script = Vec::new();
    record(Arch::X86, &mut script, &[2, 0x1000]);
    let mut loader = Loader::new(Arch::X86);
    loader.resume(&script, 0);
    assert_eq!(
        loader.resume(&script, 0xffff_fffe),
        Request::Finish(Terminal::Exit(Fatal::OpenFailed))
    );
    let mut script = Vec::new();
    record(Arch::X86_64, &mut script, &[2, 0x1000]);
    let mut loader = Loader::new(Arch::X86_64);
    loader.resume(&script, 0);
    assert_eq!(
        loader.resume(&script, 0xffff_fffe),
        Request::Finish(Terminal::Exit(Fatal::BadStatement))
    );
    assert_eq!(loader.descriptor, Some(0xffff_fffe));
}

#[test]
fn parse_every_statement() {
    let arch = Arch::X86_64;
    let start = LoadStatementStart {
        stack_pointer: SP,
        entry_point: 1,
        at_phdr: H,
        at_phent: 56,
        at_phnum: 9,
        at_entry: 1,
        at_execfn: PATH,
    };
    let cases: Vec<(Vec<u64>, LoadStatement)> = vec![
        (vec![1, 7], LoadStatement::OpenNext(LoadStatementOpen { string_address: 7 })),
        (vec![2, 8], LoadStatement::Open(LoadStatementOpen { string_address: 8 })),
        (
            vec![3, 1, 2, 3, 4, 5],
            LoadStatement::MmapFile(LoadStatementMmapFile {
                addr: 1,
                length: 2,
                prot: 3,
                offset: 4,
                clear_length: 5,
            }),
        ),
        (
            vec![4, 1, 2, 3],
            LoadStatement::MmapAnonymous(LoadStatementMmapAnonymous { addr: 1, length: 2, prot: 3 }),
        ),
        (vec![5, 9], LoadStatement::MakeStackExec(LoadStatementStackExec { start: 9 })),
        (start_words(6, 1), LoadStatement::Start(start)),
        (start_words(7, 1), LoadStatement::StartTraced(start)),
    ];
    for (words, stmt) in cases {
        let mut script = vec![0xaa; 3];
        record(arch, &mut script, &words);
        let end = script.len();
        script.push(0xbb);
        assert_eq!(parse_statement(arch, &script, 3), Ok((stmt, end)));
        assert_eq!(parse_statement(arch, &script[..end - 1], 3), Err(ScriptError::Truncated));
    }
}

#[test]
fn parse_errors() {
    let arch = Arch::X86_64;
    let mut script = Vec::new();
    record(arch, &mut script, &[8, 1, 2, 3, 4, 5, 6, 7]);
    assert_eq!(parse_statement(arch, &script, 0), Err(ScriptError::UnknownTag));
    assert_eq!(parse_statement(arch, &[0u8; 16], 0), Err(ScriptError::UnknownTag));
    assert_eq!(parse_statement(arch, &script, 64), Err(ScriptError::Truncated));
    assert_eq!(parse_statement(arch, &script, 65), Err(ScriptError::Truncated));
    assert_eq!(parse_statement(arch, &script, usize::MAX), Err(ScriptError::Truncated));
    assert_eq!(parse_statement(arch, &script, 60), Err(ScriptError::Truncated));
    assert_eq!(parse_statement(arch, &[], 0), Err(ScriptError::Truncated));
}

#[test]
fn parse_reads_words_least_significant_byte_first() {
    let script = [2, 0, 0, 0, 0, 0, 0, 0, 0xef, 0xcd, 0xab, 0x89, 0x67, 0x45, 0x23, 0x01];
    assert_eq!(
        parse_statement(Arch::Aarch64, &script, 0),
        Ok((LoadStatement::Open(LoadStatementOpen { string_address: 0x0123_4567_89ab_cdef }), 16))
    );
    let script = [2, 0, 0, 0, 0xef, 0xcd, 0xab, 0x89];
    assert_eq!(
        parse_statement(Arch::X86, &script, 0),
        Ok((LoadStatement::Open(LoadStatementOpen { string_address: 0x89ab_cdef }), 8))
    );
}

#[test]
fn addresses_stay_inside_the_word() {
    // A stack at the top of a 32-bit address space: the word behind the arguments lies outside.
    let arch = Arch::X86;
    let sp: u64 = 0xffff_fff8;
    let mut script = Vec::new();
    record(arch, &mut script, &[2, 0x1000]);
    record(arch, &mut script, &[6, sp, 0x1_0100, 0x1_0034, 32, 7, 0x1_0100, 0x2000]);
    let mut loader = Loader::new(arch);
    loader.resume(&script, 0);
    assert_eq!(
        loader.resume(&script, 3),
        Request::Syscall { number: 6, args: [3, 0, 0, 0, 0, 0] }
    );
    assert_eq!(loader.resume(&script, 0), Request::ReadWord { addr: sp });
    assert_eq!(loader.resume(&script, 5), Request::Finish(Terminal::Exit(Fatal::BadStack)));
    // The same stack is in reach of a 64-bit word.
    let arch = Arch::X86_64;
    let mut script = Vec::new();
    record(arch, &mut script, &[2, 0x1000]);
    record(arch, &mut script, &[6, sp, 0x1_0100, 0x1_0034, 32, 7, 0x1_0100, 0x2000]);
    let mut loader = Loader::new(arch);
    loader.resume(&script, 0);
    loader.resume(&script, 3);
    assert_eq!(loader.resume(&script, 0), Request::ReadWord { addr: sp });
    assert_eq!(loader.resume(&script, 5), Request::ReadWord { addr: sp + 8 * 6 });
}

#[test]
fn a_path_that_leaves_the_address_space_is_fatal() {
    let arch = Arch::Arm;
    let sp: u64 = 0xbeff_f000;
    let path: u64 = 0xffff_fffe;
    let mut script = Vec::new();
    record(arch, &mut script, &[2, 0x1000]);
    record(arch, &mut script, &[6, sp, 0x1_0100, 0x1_0034, 32, 7, 0x1_0100, path]);
    let mut loader = Loader::new(arch);
    loader.resume(&script, 0);
    loader.resume(&script, 3);
    assert_eq!(loader.resume(&script, 0), Request::ReadWord { addr: sp });
    assert_eq!(loader.resume(&script, 0), Request::ReadWord { addr: sp + 4 });
    assert_eq!(loader.resume(&script, 0), Request::ReadWord { addr: sp + 8 });
    assert_eq!(loader.resume(&script, 0), Request::ReadWord { addr: sp + 12 });
    assert_eq!(loader.resume(&script, 0), Request::ReadByte { addr: path });
    assert_eq!(loader.resume(&script, b'a' as u64), Request::ReadByte { addr: path + 1 });
    assert_eq!(
        loader.resume(&script, b'b' as u64),
        Request::Finish(Terminal::Exit(Fatal::BadPath))
    );
}

#[test]
fn a_mapping_that_leaves_the_address_space_is_a_bad_statement() {
    let arch = Arch::X86;
    let mut script = Vec::new();
    record(arch, &mut script, &[2, 0x1000]);
    record(arch, &mut script, &[3, 0xffff_f000, 0x1000, 0x3, 0, 0x10]);
    let mut loader = Loader::new(arch);
    loader.resume(&script, 0);
    assert_eq!(
        loader.resume(&script, 3),
        Request::Finish(Terminal::Exit(Fatal::BadStatement))
    );
}

#[test]
fn one_open_and_one_close_over_the_run() {
    for arch in [Arch::X86_64, Arch::Aarch64] {
        let mut m = Machine::new(arch);
        m.run(&scenario(arch));
        let (open, close) = match arch {
            Arch::Aarch64 => (56, 57),
            _ => (2, 3),
        };
        let mut held = 0;
        for r in &m.requests {
            if let Request::Syscall { number, .. } = r {
                if *number == open {
                    held += 1;
                } else if *number == close {
                    held -= 1;
                }
            }
            assert!(held == 0 || held == 1);
        }
        assert_eq!(held, 0);
    }
}
