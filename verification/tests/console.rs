use print_bytes::console::check_syscall;
use print_bytes::console::replay;
use print_bytes::console::ConsoleReply;
use print_bytes::console::WideWriter;
use print_bytes::console::WriteError;
use print_bytes::console::MAX_REQUEST;
use print_bytes::Console;

// The loop that a caller runs around a console's write primitive.
fn write_wide_all<F>(units: &[u16], mut primitive: F) -> Result<(), WriteError>
where
    F: FnMut(&[u16]) -> ConsoleReply,
{
    let mut writer = WideWriter::new(units.len());
    while let Some((start, count)) = writer.request() {
        let reply = primitive(&units[start..start + count as usize]);
        writer.advance(reply)?;
    }
    Ok(())
}

fn sample(len: u16) -> Vec<u16> {
    (0..len).map(|x| 0xD7F0 + x).collect()
}

#[test]
fn test_check_syscall() {
    assert!(check_syscall(1));
    assert!(!check_syscall(0));
    assert!(!check_syscall(-1));
    assert!(!check_syscall(2));
}

#[test]
fn test_null_handle_is_not_queried() {
    assert!(!Console::may_query(0));
    assert_eq!(None, Console::from_handle(&(), 0, 1));
}

#[test]
fn test_invalid_handle_is_not_queried() {
    assert!(!Console::may_query(-1));
    assert_eq!(None, Console::from_handle(&(), -1, 1));
}

#[test]
fn test_failed_query_is_no_console() {
    assert!(Console::may_query(0x58));
    assert_eq!(None, Console::from_handle(&(), 0x58, 0));
    assert_eq!(None, Console::from_handle(&(), 0x58, 2));
}

#[test]
fn test_console_keeps_handle() {
    let console = Console::from_handle(&(), 0x58, 1).unwrap();
    assert_eq!(0x58, console.handle());
    let console = Console::from_handle(&(), isize::MIN, 1).unwrap();
    assert_eq!(isize::MIN, console.handle());
}

#[test]
fn test_write_in_one_call() {
    let units = sample(5);
    let mut received = Vec::new();
    let mut calls = 0;
    let result = write_wide_all(&units, |offered| {
        calls += 1;
        received.extend_from_slice(offered);
        ConsoleReply::Wrote(offered.len() as u32)
    });
    assert_eq!(Ok(()), result);
    assert_eq!(units, received);
    assert_eq!(1, calls);
}

#[test]
fn test_empty_wide_write_makes_no_call() {
    let mut calls = 0;
    let result = write_wide_all(&[], |_| {
        calls += 1;
        ConsoleReply::Wrote(0)
    });
    assert_eq!(Ok(()), result);
    assert_eq!(0, calls);
    assert_eq!(None, WideWriter::new(0).request());
}

#[test]
fn test_partial_writes_converge() {
    let units = sample(10);
    for k in 1..=11usize {
        let mut received = Vec::new();
        let mut calls = 0;
        let result = write_wide_all(&units, |offered| {
            calls += 1;
            let taken = offered.len().min(k);
            received.extend_from_slice(&offered[..taken]);
            ConsoleReply::Wrote(taken as u32)
        });
        assert_eq!(Ok(()), result);
        assert_eq!(units, received);
        assert_eq!((10 + k - 1) / k, calls);
    }
}

#[test]
fn test_each_call_offers_the_unwritten_suffix() {
    let mut writer = WideWriter::new(7);
    assert_eq!(Some((0, 7)), writer.request());
    assert_eq!(Ok(()), writer.advance(ConsoleReply::Wrote(3)));
    assert_eq!(Some((3, 4)), writer.request());
    assert_eq!(Ok(()), writer.advance(ConsoleReply::Wrote(1)));
    assert_eq!(Some((4, 3)), writer.request());
    assert_eq!(Ok(()), writer.advance(ConsoleReply::Wrote(3)));
    assert_eq!(None, writer.request());
}

#[test]
fn test_zero_progress_is_an_error() {
    let units = sample(4);
    let mut calls = 0;
    let result = write_wide_all(&units, |_| {
        calls += 1;
        ConsoleReply::Wrote(0)
    });
    assert_eq!(Err(WriteError::WriteZero { written: 0 }), result);
    assert_eq!(1, calls);
}

#[test]
fn test_zero_progress_after_partial_write() {
    let units = sample(4);
    let mut calls = 0;
    let result = write_wide_all(&units, |_| {
        calls += 1;
        if calls == 1 {
            ConsoleReply::Wrote(3)
        } else {
            ConsoleReply::Wrote(0)
        }
    });
    assert_eq!(Err(WriteError::WriteZero { written: 3 }), result);
    assert_eq!(2, calls);
}

#[test]
fn test_interrupt_is_retried() {
    let units = sample(6);
    let mut received = Vec::new();
    let mut offers = Vec::new();
    let mut calls = 0;
    let result = write_wide_all(&units, |offered| {
        calls += 1;
        offers.push(offered.to_vec());
        if calls == 1 {
            ConsoleReply::Interrupted
        } else {
            received.extend_from_slice(offered);
            ConsoleReply::Wrote(offered.len() as u32)
        }
    });
    assert_eq!(Ok(()), result);
    assert_eq!(units, received);
    assert_eq!(2, calls);
    assert_eq!(offers[0], offers[1]);
}

#[test]
fn test_interrupt_keeps_progress() {
    let mut writer = WideWriter::new(9);
    assert_eq!(Ok(()), writer.advance(ConsoleReply::Wrote(4)));
    assert_eq!(Ok(()), writer.advance(ConsoleReply::Interrupted));
    assert_eq!(Ok(()), writer.advance(ConsoleReply::Interrupted));
    assert_eq!(Some((4, 5)), writer.request());
}

#[test]
fn test_os_failure_is_handed_on() {
    let units = sample(8);
    let mut calls = 0;
    let result = write_wide_all(&units, |_| {
        calls += 1;
        if calls == 1 {
            ConsoleReply::Wrote(5)
        } else {
            ConsoleReply::Failed(6)
        }
    });
    assert_eq!(Err(WriteError::Os { code: 6, written: 5 }), result);
    assert_eq!(2, calls);
}

#[test]
fn test_request_is_clamped() {
    assert_eq!(u32::MAX, MAX_REQUEST);
    let len = usize::MAX;
    let mut writer = WideWriter::new(len);
    if len > MAX_REQUEST as usize {
        assert_eq!(Some((0, MAX_REQUEST)), writer.request());
        assert_eq!(Ok(()), writer.advance(ConsoleReply::Wrote(MAX_REQUEST)));
        assert_eq!(Some((MAX_REQUEST as usize, MAX_REQUEST)), writer.request());
    } else {
        assert_eq!(Some((0, len as u32)), writer.request());
    }
    let writer = WideWriter::new(MAX_REQUEST as usize);
    assert_eq!(Some((0, MAX_REQUEST)), writer.request());
}

#[test]
fn test_replay_chunks() {
    let units = sample(5);
    let script = [
        ConsoleReply::Wrote(2),
        ConsoleReply::Wrote(2),
        ConsoleReply::Wrote(1),
    ];
    assert_eq!((Some(Ok(())), units.clone()), replay(&units, &script));
    // Replies that are never asked for change nothing.
    let script = [
        ConsoleReply::Wrote(5),
        ConsoleReply::Wrote(0),
        ConsoleReply::Failed(1),
    ];
    assert_eq!((Some(Ok(())), units.clone()), replay(&units, &script));
}

#[test]
fn test_replay_runs_out_of_replies() {
    let units = sample(5);
    let script = [ConsoleReply::Wrote(2), ConsoleReply::Interrupted];
    assert_eq!((None, units[..2].to_vec()), replay(&units, &script));
    assert_eq!((None, Vec::new()), replay(&units, &[]));
    assert_eq!((Some(Ok(())), Vec::new()), replay(&[], &[]));
}

#[test]
fn test_replay_zero_progress() {
    let units = sample(5);
    let script = [ConsoleReply::Wrote(0), ConsoleReply::Wrote(5)];
    assert_eq!(
        (Some(Err(WriteError::WriteZero { written: 0 })), Vec::new()),
        replay(&units, &script),
    );
}

#[test]
fn test_replay_interrupt_then_success() {
    let units = sample(5);
    let script = [ConsoleReply::Interrupted, ConsoleReply::Wrote(5)];
    assert_eq!((Some(Ok(())), units.clone()), replay(&units, &script));
    let script = [
        ConsoleReply::Wrote(1),
        ConsoleReply::Interrupted,
        ConsoleReply::Interrupted,
        ConsoleReply::Wrote(4),
    ];
    assert_eq!((Some(Ok(())), units.clone()), replay(&units, &script));
}

#[test]
fn test_replay_failure_reports_progress() {
    let units = sample(5);
    let script = [ConsoleReply::Wrote(3), ConsoleReply::Failed(232)];
    assert_eq!(
        (
            Some(Err(WriteError::Os { code: 232, written: 3 })),
            units[..3].to_vec(),
        ),
        replay(&units, &script),
    );
}
