use vstd::prelude::*;

verus! {

/// The greeting for `name`: `Hello, {name}!`.
pub fn greet(name: &str) -> (r: String)
    ensures
        r@ == "Hello, "@ + name@ + "!"@,
{
    let mut greeting = String::from_str("Hello, ");
    greeting.append(name);
    greeting.append("!");
    greeting
}

} // verus!
