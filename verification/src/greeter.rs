//! The greeting, and what the greeter keeps in its record store.

use vstd::prelude::*;

verus! {

/// The file that holds the record store.
pub const STORE_PATH: &'static str = "dtimelog.db";

/// What is run on the store at each greeting: a table of users, and two of
/// them. On a store that has the table already, the first statement fails.
pub const STORE_SCRIPT: &'static str =
    "CREATE TABLE users (name TEXT, age INTEGER);\nINSERT INTO users VALUES ('Alice', 42);\nINSERT INTO users VALUES ('Bob', 69);\n";

/// How the caller fared with the record store.
#[derive(Clone, Copy, Debug, PartialEq, Eq, Structural)]
pub enum StoreOutcome {
    /// The store was opened and [`STORE_SCRIPT`] ran through.
    Ready,
    /// The store could not be opened.
    OpenFailed,
    /// The store was opened, and a statement of the script failed.
    ScriptFailed,
}

/// Why there is no greeting.
#[derive(Clone, Copy, Debug, PartialEq, Eq, Structural)]
pub enum StoreError {
    /// The store could not be opened.
    Open,
    /// A statement could not be executed.
    Execute,
}

/// The line that greets `thing` with `text`: the two, with one space between.
pub open spec fn greeting_line(text: Seq<char>, thing: Seq<char>) -> Seq<char> {
    text + seq![' '] + thing
}

/// The error that an outcome of the store amounts to, if any.
pub open spec fn store_error(store: StoreOutcome) -> Option<StoreError> {
    match store {
        StoreOutcome::Ready => None,
        StoreOutcome::OpenFailed => Some(StoreError::Open),
        StoreOutcome::ScriptFailed => Some(StoreError::Execute),
    }
}

/// Object that displays a greeting.
#[derive(Clone, Debug)]
pub struct Greeter {
    greeting: String,
}

impl View for Greeter {
    type V = Seq<char>;

    /// The text that the greeter was made with.
    closed spec fn view(&self) -> Seq<char> {
        self.greeting@
    }
}

impl Greeter {
    /// Constructs a new `Greeter` that keeps `greeting` as it is.
    pub fn new(greeting: &str) -> (greeter: Greeter)
        ensures
            greeter@ == greeting@,
    {
        Greeter { greeting: greeting.to_owned() }
    }

    /// Returns the greeting as a string.
    pub fn greeting(&self, thing: &str) -> (line: String)
        ensures
            line@ == greeting_line(self@, thing@),
    {
        let mut line = self.greeting.clone();
        line.append(" ");
        line.append(thing);
        proof {
            reveal_strlit(" ");
            assert(" "@ =~= seq![' ']);
        }
        line
    }

    /// Decides what a greeting comes to once the caller has been to the
    /// record store: the line to print, or the store's failure and no line.
    pub fn greet(&self, thing: &str, store: StoreOutcome) -> (r: Result<String, StoreError>)
        ensures
            match r {
                Ok(line) => store == StoreOutcome::Ready && line@ == greeting_line(self@, thing@),
                Err(e) => store_error(store) == Some(e),
            },
    {
        match store {
            StoreOutcome::Ready => Ok(self.greeting(thing)),
            StoreOutcome::OpenFailed => Err(StoreError::Open),
            StoreOutcome::ScriptFailed => Err(StoreError::Execute),
        }
    }
}

} // verus!
