use pronyx::name::{basename, basename_offset};
use pronyx::script::LoadStatementStart;
use pronyx::stack::{aux_replacement, patch_auxv, Access, StackError, StackWalk, WalkStage};

fn start() -> LoadStatementStart {
    LoadStatementStart {
        stack_pointer: 0x7000,
        entry_point: 0x40_0100,
        at_phdr: 0x40_0040,
        at_phent: 56,
        at_phnum: 9,
        at_entry: 0x40_0100,
        at_execfn: 0x7f00,
    }
}

#[test]
fn basename_of_a_path() {
    assert_eq!(basename(b"/usr/bin/sh"), b"sh");
    assert_eq!(basename_offset(b"/usr/bin/sh"), 9);
}

#[test]
fn basename_without_separator() {
    assert_eq!(basename(b"sh"), b"sh");
    assert_eq!(basename_offset(b"sh"), 0);
}

#[test]
fn basename_boundary_cases() {
    assert_eq!(basename(b"/usr/bin/"), b"");
    assert_eq!(basename_offset(b"/usr/bin/"), 9);
    assert_eq!(basename(b""), b"");
    assert_eq!(basename_offset(b""), 0);
    assert_eq!(basename(b"/"), b"");
    assert_eq!(basename(b"//a"), b"a");
}

#[test]
fn basename_stops_at_the_first_nul() {
    assert_eq!(basename(b"/bin/sh\0/etc/passwd"), b"sh");
    assert_eq!(basename_offset(b"/bin/sh\0/etc/passwd"), 5);
    assert_eq!(basename(b"\0/x"), b"");
    assert_eq!(basename(b"a/\0"), b"");
}

#[test]
fn replacement_by_type() {
    let s = start();
    assert_eq!(aux_replacement(3, &s, 0x1000), Some(0x40_0040));
    assert_eq!(aux_replacement(4, &s, 0x1000), Some(56));
    assert_eq!(aux_replacement(5, &s, 0x1000), Some(9));
    assert_eq!(aux_replacement(7, &s, 0x1000), Some(0x1000));
    assert_eq!(aux_replacement(9, &s, 0x1000), Some(0x40_0100));
    assert_eq!(aux_replacement(31, &s, 0x1000), Some(0x7f00));
    assert_eq!(aux_replacement(0, &s, 0x1000), None);
    assert_eq!(aux_replacement(6, &s, 0x1000), None);
    assert_eq!(aux_replacement(25, &s, 0x1000), None);
}

#[test]
fn patch_a_stack() {
    let mut stack = vec![1, 0xa0, 0, 0xe0, 0xe1, 0, 6, 4096, 3, 1, 7, 2, 25, 3, 9, 4, 0, 0, 3, 99];
    assert_eq!(patch_auxv(&mut stack, &start(), 0x5000), Ok(()));
    assert_eq!(
        stack,
        vec![
            1, 0xa0, 0, 0xe0, 0xe1, 0, 6, 4096, 3, 0x40_0040, 7, 0x5000, 25, 3, 9, 0x40_0100, 0, 0,
            3, 99
        ]
    );
}

#[test]
fn patch_is_idempotent() {
    let mut once = vec![0, 0, 0, 5, 1, 4, 2, 31, 3, 0];
    assert_eq!(patch_auxv(&mut once, &start(), 0), Ok(()));
    assert_eq!(once, vec![0, 0, 0, 5, 9, 4, 56, 31, 0x7f00, 0]);
    let mut twice = once.clone();
    assert_eq!(patch_auxv(&mut twice, &start(), 0), Ok(()));
    assert_eq!(twice, once);
}

#[test]
fn patch_smallest_stack() {
    let mut stack = vec![0, 0, 0, 0];
    assert_eq!(patch_auxv(&mut stack, &start(), 1), Ok(()));
    assert_eq!(stack, vec![0, 0, 0, 0]);
}

#[test]
fn patch_rejects_truncated_stacks() {
    for words in [
        vec![],
        vec![0],
        vec![3, 1, 2, 3],
        vec![0, 0],
        vec![0, 0, 5, 6],
        vec![0, 0, 0],
        vec![0, 0, 0, 6, 1],
        vec![0, 0, 0, 6],
        vec![u64::MAX, 0, 0, 0],
    ] {
        let mut stack = words.clone();
        assert_eq!(patch_auxv(&mut stack, &start(), 1), Err(StackError::Truncated));
        assert_eq!(stack, words);
    }
}

#[test]
fn patch_on_a_cut_vector_keeps_what_it_wrote() {
    let mut stack = vec![0, 0, 0, 3, 1, 4, 2];
    assert_eq!(patch_auxv(&mut stack, &start(), 1), Err(StackError::Truncated));
    assert_eq!(stack, vec![0, 0, 0, 3, 0x40_0040, 4, 56]);
    let mut stack = vec![0, 0, 0, 3, 1, 4];
    assert_eq!(patch_auxv(&mut stack, &start(), 1), Err(StackError::Truncated));
    assert_eq!(stack, vec![0, 0, 0, 3, 0x40_0040, 4]);
}

#[test]
fn patch_rejects_unterminated_argv() {
    let mut stack = vec![1, 0xa0, 0xa1, 0, 0, 0];
    assert_eq!(patch_auxv(&mut stack, &start(), 1), Err(StackError::ArgvNotTerminated));
    assert_eq!(stack, vec![1, 0xa0, 0xa1, 0, 0, 0]);
}

#[test]
fn walk_step_by_step() {
    let s = start();
    let walk = StackWalk::new();
    assert_eq!(walk, StackWalk { stage: WalkStage::Begin, index: 0 });
    let (walk, access) = walk.resume(123, &s, 0);
    assert_eq!(access, Access::Read { index: 0 });
    let (walk, access) = walk.resume(2, &s, 0);
    assert_eq!(access, Access::Read { index: 3 });
    assert_eq!(walk, StackWalk { stage: WalkStage::ArgvEnd, index: 3 });
    let (walk, access) = walk.resume(0, &s, 0);
    assert_eq!(access, Access::Read { index: 4 });
    let (walk, access) = walk.resume(0xe0, &s, 0);
    assert_eq!(access, Access::Read { index: 5 });
    let (walk, access) = walk.resume(0, &s, 0);
    assert_eq!(access, Access::Read { index: 6 });
    assert_eq!(walk.stage, WalkStage::AuxType);
    let (walk, access) = walk.resume(6, &s, 0);
    assert_eq!(access, Access::Read { index: 8 });
    let (walk, access) = walk.resume(7, &s, 0xb000);
    assert_eq!(access, Access::Write { index: 9, value: 0xb000 });
    let (walk, access) = walk.resume(55, &s, 0);
    assert_eq!(access, Access::Read { index: 10 });
    let (walk, access) = walk.resume(0, &s, 0);
    assert_eq!(access, Access::Done);
    let (again, access) = walk.resume(3, &s, 0);
    assert_eq!(access, Access::Done);
    assert_eq!(again, walk);
}

#[test]
fn walk_fails_for_good() {
    let s = start();
    let (walk, _) = StackWalk::new().resume(0, &s, 0);
    let (walk, _) = walk.resume(0, &s, 0);
    let (walk, access) = walk.resume(1, &s, 0);
    assert_eq!(access, Access::Fail(StackError::ArgvNotTerminated));
    let (_, access) = walk.resume(0, &s, 0);
    assert_eq!(access, Access::Fail(StackError::ArgvNotTerminated));
    let (walk, _) = StackWalk::new().resume(0, &s, 0);
    let (_, access) = walk.resume(u64::MAX, &s, 0);
    assert_eq!(access, Access::Fail(StackError::Truncated));
}
