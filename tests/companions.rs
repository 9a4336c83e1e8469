use deet::hangman::find_and_replace_char;
use deet::linked_list::{LinkedList, Node};
use deet::rate_limiting::FixWindowRateLimit;
use deet::wc::{count_words, wc_counts};
use deet::status::{is_initial_trap, kill_result, Status, TraceError};
use deet::upstream::{active_count, nth_active, select_upstream, state_after_probe, HealthProbe};
use deet::upstream::UpstreamState::{Active, Dead};

#[test]
fn list_push_pop_and_size() {
    let mut list: LinkedList<u32> = LinkedList::new();
    assert!(list.is_empty());
    assert_eq!(list.get_size(), 0);
    for i in 1..12 {
        list.push_front(i);
    }
    assert_eq!(list.get_size(), 11);
    assert_eq!(list.pop_front(), Some(11));
    assert_eq!(list.get_size(), 10);
    assert!(!list.is_empty());
}

#[test]
fn list_pop_on_empty_is_none() {
    let mut list: LinkedList<u32> = LinkedList::new();
    assert_eq!(list.pop_front(), None);
    assert_eq!(list.get_size(), 0);
}

#[test]
fn list_iterators_visit_front_to_back() {
    let mut list: LinkedList<u32> = LinkedList::new();
    for i in 1..5 {
        list.push_front(i);
    }
    let mut seen = Vec::new();
    let mut it = list.iter();
    while let Some(v) = it.next() {
        seen.push(*v);
    }
    assert_eq!(seen, vec![4, 3, 2, 1]);
    let mut it = list.iter_mut();
    while let Some(v) = it.next() {
        *v += 10;
    }
    let mut seen = Vec::new();
    let mut it = list.into_iter();
    while let Some(v) = it.next() {
        seen.push(v);
    }
    assert_eq!(seen, vec![14, 13, 12, 11]);
}

#[test]
fn node_new_links_cells() {
    let tail = Node::new(2u8, None);
    let _head = Node::new(1u8, Some(Box::new(tail)));
}

#[test]
fn guess_uncovers_first_hidden_occurrence() {
    let secret: Vec<char> = "banana".chars().collect();
    let mut guessed = Vec::new();
    let mut so_far: Vec<char> = "------".chars().collect();
    assert!(find_and_replace_char(&secret, &mut guessed, &mut so_far, 'a'));
    assert_eq!(so_far.iter().collect::<String>(), "-a----");
    assert!(find_and_replace_char(&secret, &mut guessed, &mut so_far, 'a'));
    assert_eq!(so_far.iter().collect::<String>(), "-a-a--");
    assert_eq!(guessed, vec!['a', 'a']);
}

#[test]
fn wrong_or_exhausted_guess_changes_nothing() {
    let secret: Vec<char> = "ab".chars().collect();
    let mut guessed = vec!['a'];
    let mut so_far: Vec<char> = "a-".chars().collect();
    assert!(!find_and_replace_char(&secret, &mut guessed, &mut so_far, 'z'));
    assert!(!find_and_replace_char(&secret, &mut guessed, &mut so_far, 'a'));
    assert_eq!(so_far, vec!['a', '-']);
    assert_eq!(guessed, vec!['a']);
}

#[test]
fn rate_limit_refuses_over_limit_within_window() {
    let mut rl = FixWindowRateLimit::new(2);
    assert!(!rl.rate_limit("10.0.0.1", 1_000));
    assert!(!rl.rate_limit("10.0.0.1", 2_000));
    assert!(rl.rate_limit("10.0.0.1", 3_000));
    assert!(!rl.rate_limit("10.0.0.2", 3_000));
    // After the window the count starts over.
    assert!(!rl.rate_limit("10.0.0.1", 70_000));
    assert!(!rl.rate_limit("10.0.0.1", 70_001));
    assert!(!rl.rate_limit("10.0.0.1", 70_002));
    assert!(rl.rate_limit("10.0.0.1", 70_003));
}

#[test]
fn rate_limit_zero_means_unlimited() {
    let mut rl = FixWindowRateLimit::new(0);
    for t in 0..100u64 {
        assert!(!rl.rate_limit("1.2.3.4", t));
    }
}

#[test]
fn upstream_choice_lands_on_active_servers() {
    let states = vec![Dead, Active, Dead, Active];
    assert_eq!(active_count(&states), 2);
    assert_eq!(nth_active(&states, 0), Some(1));
    assert_eq!(nth_active(&states, 1), Some(3));
    assert_eq!(nth_active(&states, 2), None);
    for _ in 0..50 {
        let i = select_upstream(&states).unwrap();
        assert!(i == 1 || i == 3);
    }
    assert_eq!(select_upstream(&vec![Dead, Active]), Some(1));
    assert_eq!(select_upstream(&vec![Dead, Dead]), None);
    assert_eq!(select_upstream(&vec![]), None);
}

#[test]
fn status_and_error_classification() {
    assert!(Status::Exited(0).terminal());
    assert!(Status::Signaled(9).terminal());
    assert!(!Status::Stopped(5, 0x10).terminal());
    assert_eq!(TraceError::from_errno(3), TraceError::NoSuchProcess);
    assert_eq!(TraceError::from_errno(1), TraceError::Os(1));
}

#[test]
fn initial_stop_must_be_a_trap() {
    assert!(is_initial_trap(&Ok(Status::Stopped(5, 0x401020))));
    assert!(!is_initial_trap(&Ok(Status::Stopped(11, 0x401020))));
    assert!(!is_initial_trap(&Ok(Status::Exited(1))));
    assert!(!is_initial_trap(&Err(TraceError::Os(2))));
}

#[test]
fn killing_a_gone_process_succeeds() {
    assert_eq!(kill_result(None), Ok(Status::Exited(0)));
    assert_eq!(kill_result(Some(3)), Ok(Status::Exited(0)));
    assert_eq!(kill_result(Some(1)), Err(TraceError::Os(1)));
}

#[test]
fn health_probe_updates_server_state() {
    assert_eq!(state_after_probe(Dead, HealthProbe::Responded(200)), Active);
    assert_eq!(state_after_probe(Active, HealthProbe::Responded(502)), Dead);
    assert_eq!(state_after_probe(Active, HealthProbe::ReadFailed), Dead);
    assert_eq!(state_after_probe(Dead, HealthProbe::ConnectFailed), Dead);
    assert_eq!(state_after_probe(Active, HealthProbe::SendFailed), Active);
}

#[test]
fn words_are_pieces_between_single_spaces() {
    assert_eq!(count_words("hello world"), 2);
    assert_eq!(count_words(""), 1);
    assert_eq!(count_words("a  b"), 3);
    assert_eq!(count_words(" "), 2);
}

#[test]
fn wc_counts_lines_and_words() {
    let lines = vec!["one two three".to_string(), "".to_string(), "four".to_string()];
    assert_eq!(wc_counts(&lines), (3, 5));
    assert_eq!(wc_counts(&vec![]), (0, 0));
}
