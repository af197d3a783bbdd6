use dtimelog_lib::greeter::{Greeter, StoreError, StoreOutcome, STORE_SCRIPT};

fn rows(connection: &sqlite::Connection) -> Vec<(String, String)> {
    let mut found = Vec::new();
    connection
        .iterate("SELECT name, age FROM users ORDER BY rowid", |pairs| {
            let name = pairs[0].1.unwrap_or("").to_string();
            let age = pairs[1].1.unwrap_or("").to_string();
            found.push((name, age));
            true
        })
        .unwrap();
    found
}

fn run_script(connection: &sqlite::Connection) -> StoreOutcome {
    match connection.execute(STORE_SCRIPT) {
        Ok(()) => StoreOutcome::Ready,
        Err(_) => StoreOutcome::ScriptFailed,
    }
}

#[test]
fn script_fills_a_fresh_store() {
    let connection = sqlite::open(":memory:").unwrap();
    assert_eq!(run_script(&connection), StoreOutcome::Ready);
    assert_eq!(
        rows(&connection),
        vec![
            (String::from("Alice"), String::from("42")),
            (String::from("Bob"), String::from("69")),
        ]
    );
}

#[test]
fn second_greeting_on_the_same_store_fails_and_keeps_the_rows() {
    let connection = sqlite::open(":memory:").unwrap();
    let greeter = Greeter::new("Hi");

    let first = greeter.greet("Rust", run_script(&connection));
    assert_eq!(first, Ok(String::from("Hi Rust")));

    let second = greeter.greet("Rust", run_script(&connection));
    assert_eq!(second, Err(StoreError::Execute));

    assert_eq!(
        rows(&connection),
        vec![
            (String::from("Alice"), String::from("42")),
            (String::from("Bob"), String::from("69")),
        ]
    );
}
