use vstd::prelude::*;

verus! {

/// A guest-script failure in structured form: name, message and, when the
/// engine had one, the stack trace.
#[derive(Debug)]
pub struct EsError {
    pub name: String,
    pub message: String,
    pub stack: Option<String>,
}

impl EsError {
    /// An error named `Error` that carries only a message.
    pub fn new_str(message: &str) -> (r: EsError)
        ensures
            r.name@ == "Error"@,
            r.message@ == message@,
            r.stack is None,
    {
        EsError { name: "Error".to_owned(), message: message.to_owned(), stack: None }
    }

    /// An error with every part given.
    pub fn new(name: String, message: String, stack: Option<String>) -> (r: EsError)
        ensures
            r.name == name,
            r.message == message,
            r.stack == stack,
    {
        EsError { name, message, stack }
    }

    pub fn get_name(&self) -> (r: &str)
        ensures
            r@ == self.name@,
    {
        self.name.as_str()
    }

    pub fn get_message(&self) -> (r: &str)
        ensures
            r@ == self.message@,
    {
        self.message.as_str()
    }
}

} // verus!
