use unix_ipc::pthread_mutex;
use unix_ipc::semget::{ThreadArgument, MAIN_TURN, WORKER_TURN};
use unix_ipc::text::{
    alphabet, count_report, count_uppercase, inverse_case, inverse_characters, reverse_characters,
};

fn table(s: &str) -> Vec<char> {
    s.chars().collect()
}

#[test]
fn inverse_case_flips_letters_only() {
    let mut c = 'a';
    inverse_case(&mut c);
    assert_eq!(c, 'A');
    inverse_case(&mut c);
    assert_eq!(c, 'a');
    let mut z = 'Z';
    inverse_case(&mut z);
    assert_eq!(z, 'z');
    for other in ['0', ' ', '@', '[', '`', '{', 'é', 'É', 'ß'] {
        let mut d = other;
        inverse_case(&mut d);
        assert_eq!(d, other);
    }
}

#[test]
fn alphabet_is_a_to_z() {
    assert_eq!(alphabet(), table("abcdefghijklmnopqrstuvwxyz"));
}

#[test]
fn reverse_swaps_ends() {
    let mut t = alphabet();
    reverse_characters(&mut t);
    assert_eq!(t, table("zyxwvutsrqponmlkjihgfedcba"));
    let mut one = table("q");
    reverse_characters(&mut one);
    assert_eq!(one, table("q"));
    let mut two = table("ab");
    reverse_characters(&mut two);
    assert_eq!(two, table("ba"));
    let mut odd = table("abcde");
    reverse_characters(&mut odd);
    assert_eq!(odd, table("edcba"));
}

#[test]
fn reverse_twice_gives_table_back() {
    let mut t = table("Hello, World!");
    reverse_characters(&mut t);
    reverse_characters(&mut t);
    assert_eq!(t, table("Hello, World!"));
}

#[test]
fn inverse_flips_every_letter() {
    let mut t = table("Hello, World! 42");
    inverse_characters(&mut t);
    assert_eq!(t, table("hELLO, wORLD! 42"));
    inverse_characters(&mut t);
    assert_eq!(t, table("Hello, World! 42"));
    let mut empty: Vec<char> = Vec::new();
    inverse_characters(&mut empty);
    assert!(empty.is_empty());
}

#[test]
fn reverse_and_inverse_commute() {
    let mut a = table("aBcD-e");
    reverse_characters(&mut a);
    inverse_characters(&mut a);
    let mut b = table("aBcD-e");
    inverse_characters(&mut b);
    reverse_characters(&mut b);
    assert_eq!(a, b);
    assert_eq!(a, table("E-dCbA"));
}

#[test]
fn count_uppercase_counts_capitals() {
    assert_eq!(count_uppercase(&table("aBcD-E z")), 3);
    assert_eq!(count_uppercase(&Vec::new()), 0);
    assert_eq!(count_uppercase(&alphabet()), 0);
    let mut t = alphabet();
    inverse_characters(&mut t);
    assert_eq!(count_uppercase(&t), 26);
    reverse_characters(&mut t);
    assert_eq!(count_uppercase(&t), 26);
}

#[test]
fn count_after_inverse_is_former_lowercase() {
    let mut t = table("abC1dE");
    inverse_characters(&mut t);
    assert_eq!(count_uppercase(&t), 3);
}

#[test]
fn alphabet_reaches_four_tables() {
    let mut t = alphabet();
    let steps = [true, false, false, true, true, true, false];
    let mut reversals = 0;
    let mut inversions = 0;
    for reverse in steps {
        if reverse {
            reverse_characters(&mut t);
            reversals += 1;
        } else {
            inverse_characters(&mut t);
            inversions += 1;
        }
        let count = count_uppercase(&t);
        assert!(count == 0 || count == 26);
        assert_eq!(count == 26, inversions % 2 == 1);
    }
    assert_eq!(reversals % 2, 0);
    assert_eq!(inversions % 2, 1);
    assert_eq!(t, table("ABCDEFGHIJKLMNOPQRSTUVWXYZ"));
}

#[test]
fn count_report_line() {
    assert_eq!(count_report(0), "Amount of uppercase symbols: 0");
    assert_eq!(count_report(26), "Amount of uppercase symbols: 26");
}

#[test]
fn semget_thread_argument_turns() {
    let mut arg = ThreadArgument { characters: alphabet(), set_id: 7 };
    arg.reverse_characters();
    arg.inverse_characters();
    assert_eq!(arg.characters, table("ZYXWVUTSRQPONMLKJIHGFEDCBA"));
    assert_eq!(arg.set_id, 7);
    assert_eq!(WORKER_TURN, 0);
    assert_eq!(MAIN_TURN, 1);
}

#[test]
fn mutex_thread_argument_turns() {
    let mut arg = pthread_mutex::ThreadArgument {
        characters: table("xY"),
        mutex: libc::PTHREAD_MUTEX_INITIALIZER,
        duration: std::time::Duration::from_micros(5),
    };
    arg.inverse_characters();
    assert_eq!(arg.characters, table("Xy"));
    arg.reverse_characters();
    assert_eq!(arg.characters, table("yX"));
    assert_eq!(arg.duration, std::time::Duration::from_micros(5));
}
