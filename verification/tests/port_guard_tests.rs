use bdent_desktop::port_guard::{
    kill_args, lsof_args, port_owners, port_owners_in_output, PortBinding, PortGuard,
};
use bdent_desktop::protocol::{Action, Event, Progress, PORT_SETTLE_MILLIS};

fn pending(progress: Progress<PortGuard, bool>) -> PortGuard {
    match progress {
        Progress::Pending(guard) => guard,
        Progress::Done(free) => panic!("the guard is done already: {}", free),
    }
}

#[test]
fn lsof_is_asked_for_the_port() {
    assert_eq!(lsof_args(5432), vec!["-ti".to_string(), ":5432".to_string()]);
    assert_eq!(lsof_args(8000), vec!["-ti".to_string(), ":8000".to_string()]);
    assert_eq!(lsof_args(0), vec!["-ti".to_string(), ":0".to_string()]);
    assert_eq!(lsof_args(65535), vec!["-ti".to_string(), ":65535".to_string()]);
}

#[test]
fn kill_is_forced() {
    assert_eq!(kill_args(123), vec!["-9".to_string(), "123".to_string()]);
    assert_eq!(kill_args(1), vec!["-9".to_string(), "1".to_string()]);
    assert_eq!(kill_args(-7), vec!["-9".to_string(), "-7".to_string()]);
    assert_eq!(kill_args(i32::MAX), vec!["-9".to_string(), "2147483647".to_string()]);
}

#[test]
fn owners_one_to_a_line() {
    assert_eq!(port_owners("123\n456\n"), vec![123, 456]);
    assert_eq!(port_owners("123\n456"), vec![123, 456]);
    assert_eq!(port_owners("42"), vec![42]);
}

#[test]
fn no_owners_in_an_empty_listing() {
    assert_eq!(port_owners(""), Vec::<i32>::new());
    assert_eq!(port_owners("\n"), Vec::<i32>::new());
    assert_eq!(port_owners("\n\n\n"), Vec::<i32>::new());
    assert_eq!(port_owners("   \n\t\n"), Vec::<i32>::new());
}

#[test]
fn owners_are_trimmed() {
    assert_eq!(port_owners("  12 \n\t34\t\n"), vec![12, 34]);
    assert_eq!(port_owners("12\r\n34\r\n"), vec![12, 34]);
    assert_eq!(port_owners("\u{a0}56\u{3000}\n"), vec![56]);
    assert_eq!(port_owners("\n\n7\n\n8\n\n"), vec![7, 8]);
}

#[test]
fn lines_that_are_no_number_are_skipped() {
    assert_eq!(port_owners("abc\n12\n"), vec![12]);
    assert_eq!(port_owners("12 34\n56\n"), vec![56]);
    assert_eq!(port_owners("12a\n-\n+\n1.5\n0x10\n9\n"), vec![9]);
    assert_eq!(port_owners("1\u{fffd}\n2\n"), vec![2]);
}

#[test]
fn signs_and_leading_zeros() {
    assert_eq!(port_owners("+7\n-8\n-0\n007\n"), vec![7, -8, 0, 7]);
    assert_eq!(port_owners("00000000000000000000000000012\n"), vec![12]);
    assert_eq!(port_owners("--5\n+-5\n5-\n"), Vec::<i32>::new());
}

#[test]
fn owners_must_fit() {
    assert_eq!(port_owners("2147483647\n"), vec![i32::MAX]);
    assert_eq!(port_owners("-2147483648\n"), vec![i32::MIN]);
    assert_eq!(port_owners("2147483648\n1\n"), vec![1]);
    assert_eq!(port_owners("-2147483649\n1\n"), vec![1]);
    assert_eq!(port_owners("99999999999999999999999999999999\n3\n"), vec![3]);
}

#[test]
fn owners_agree_with_std() {
    let listing = " 1\n22\r\n\n x\n+3 \n-4\n2147483648\n  \n0005\n6";
    let expected: Vec<i32> =
        listing.lines().filter_map(|line| line.trim().parse::<i32>().ok()).collect();
    assert_eq!(port_owners(listing), expected);
    assert_eq!(expected, vec![1, 22, 3, -4, 5, 6]);
}

#[test]
fn owners_agree_with_std_on_many_listings() {
    let alphabet = [
        "\n", "\n", "\r\n", " ", "\t", "\u{a0}", "+", "-", "0", "1", "7", "9", "21474", "83647",
        "83648", "x", "\u{2003}", "\u{b}",
    ];
    let mut seed: u64 = 0x2545_F491_4F6C_DD1D;
    for _ in 0..20_000 {
        let mut listing = String::new();
        seed = seed.wrapping_mul(6364136223846793005).wrapping_add(1442695040888963407);
        let pieces = (seed >> 60) as usize;
        for _ in 0..pieces {
            seed = seed.wrapping_mul(6364136223846793005).wrapping_add(1442695040888963407);
            listing.push_str(alphabet[(seed >> 33) as usize % alphabet.len()]);
        }
        let expected: Vec<i32> =
            listing.lines().filter_map(|line| line.trim().parse::<i32>().ok()).collect();
        assert_eq!(port_owners(&listing), expected, "{:?}", listing);
    }
}

#[test]
fn owners_in_raw_output() {
    assert_eq!(port_owners_in_output(b"123\n456\n"), vec![123, 456]);
    assert_eq!(port_owners_in_output(b""), Vec::<i32>::new());
    assert_eq!(port_owners_in_output(b"12\n\xff\xfe\n34"), vec![12, 34]);
    assert_eq!(port_owners_in_output(b"1\xff\n2\n"), vec![2]);
}

#[test]
fn a_free_port_is_left_alone() {
    let guard = PortGuard::free_port(5432);
    assert_eq!(guard.pending(), Action::CheckPort { port: 5432 });
    assert_eq!(guard.port(), 5432);
    assert_eq!(guard.advance(Event::PortChecked { free: true }), Progress::Done(true));
}

#[test]
fn an_occupied_port_is_freed() {
    let guard = PortGuard::free_port(8000);
    let guard = pending(guard.advance(Event::PortChecked { free: false }));
    assert_eq!(guard.pending(), Action::ListPortOwners { port: 8000 });
    let guard = pending(guard.advance(Event::OwnersListed { owners: Some(vec![11, 22]) }));
    assert_eq!(guard.pending(), Action::KillProcess { pid: 11 });
    assert_eq!(guard.binding(), PortBinding { port: 8000, owner_pid: Some(11) });
    let guard = pending(guard.advance(Event::ProcessKilled));
    assert_eq!(guard.pending(), Action::KillProcess { pid: 22 });
    assert_eq!(guard.binding(), PortBinding { port: 8000, owner_pid: Some(22) });
    let guard = pending(guard.advance(Event::ProcessKilled));
    assert_eq!(guard.pending(), Action::Sleep { millis: 500 });
    assert_eq!(PORT_SETTLE_MILLIS, 500);
    assert_eq!(guard.binding(), PortBinding { port: 8000, owner_pid: None });
    let guard = pending(guard.advance(Event::Slept));
    assert_eq!(guard.pending(), Action::CheckPort { port: 8000 });
    assert_eq!(guard.advance(Event::PortChecked { free: true }), Progress::Done(true));
}

#[test]
fn a_port_may_stay_occupied() {
    let guard = PortGuard::free_port(8000);
    let guard = pending(guard.advance(Event::PortChecked { free: false }));
    let guard = pending(guard.advance(Event::OwnersListed { owners: Some(vec![11]) }));
    let guard = pending(guard.advance(Event::ProcessKilled));
    let guard = pending(guard.advance(Event::Slept));
    assert_eq!(guard.advance(Event::PortChecked { free: false }), Progress::Done(false));
}

#[test]
fn no_owners_still_means_a_second_look() {
    let guard = PortGuard::free_port(8000);
    let guard = pending(guard.advance(Event::PortChecked { free: false }));
    let guard = pending(guard.advance(Event::OwnersListed { owners: Some(Vec::new()) }));
    assert_eq!(guard.pending(), Action::Sleep { millis: 500 });
    let guard = pending(guard.advance(Event::Slept));
    assert_eq!(guard.pending(), Action::CheckPort { port: 8000 });
}

#[test]
fn without_a_listing_the_port_is_not_freed() {
    let guard = PortGuard::free_port(8000);
    let guard = pending(guard.advance(Event::PortChecked { free: false }));
    assert_eq!(guard.advance(Event::OwnersListed { owners: None }), Progress::Done(false));
}

#[test]
fn the_guard_ignores_what_it_did_not_ask_for() {
    let guard = PortGuard::free_port(8000);
    let guard = pending(guard.advance(Event::Slept));
    assert_eq!(guard, PortGuard::Checking { port: 8000 });
    let guard = pending(guard.advance(Event::ProcessKilled));
    assert_eq!(guard, PortGuard::Checking { port: 8000 });
    let guard = pending(guard.advance(Event::PortChecked { free: false }));
    let guard = pending(guard.advance(Event::PortChecked { free: true }));
    assert_eq!(guard, PortGuard::Listing { port: 8000 });
    let guard = pending(guard.advance(Event::OwnersListed { owners: Some(vec![5]) }));
    let guard = pending(guard.advance(Event::Slept));
    assert_eq!(guard, PortGuard::Killing { port: 8000, owners: vec![5], next: 0 });
    let guard = pending(guard.advance(Event::ProcessKilled));
    let guard = pending(guard.advance(Event::ProcessKilled));
    assert_eq!(guard, PortGuard::Killing { port: 8000, owners: vec![5], next: 1 });
}

#[test]
fn events_from_raw_listings() {
    assert_eq!(
        Event::owners_listed(Some(b"31\n32\n")),
        Event::OwnersListed { owners: Some(vec![31, 32]) }
    );
    assert_eq!(Event::owners_listed(Some(b"")), Event::OwnersListed { owners: Some(vec![]) });
    assert_eq!(Event::owners_listed(None), Event::OwnersListed { owners: None });
}
