//! Finding the real function behind an intercepted one: once, and for good.

use vstd::prelude::*;
use vstd::string::*;

verus! {

/// An intercepted function: its symbol name and, once it was looked up, the
/// address of the real function that the interception hands calls on to.
#[derive(Debug)]
pub struct HookedFunction {
    name: String,
    address: Option<usize>,
}

/// The diagnostic for a symbol that has no real function behind it.
pub open spec fn missing_symbol_line(symbol: Seq<char>) -> Seq<char> {
    "[*] Error: Unable to find function \""@ + symbol + "\""@
}

impl HookedFunction {
    #[verifier::type_invariant]
    spec fn well_formed(self) -> bool {
        self.address != Some(0usize)
    }

    /// The symbol name.
    pub closed spec fn symbol(self) -> Seq<char> {
        self.name@
    }

    /// The address of the real function, once it was found.
    pub closed spec fn delegate(self) -> Option<usize> {
        self.address
    }

    /// A function that has not been looked up yet.
    pub fn new(name: &str) -> (hook: HookedFunction)
        ensures
            hook.symbol() == name@,
            hook.delegate() is None,
    {
        HookedFunction { name: String::from_str(name), address: None }
    }

    /// The symbol name.
    pub fn name(&self) -> (name: &str)
        ensures
            name@ == self.symbol(),
    {
        self.name.as_str()
    }

    /// The address of the real function, or `None` before it was found. It
    /// is never the null address.
    pub fn address(&self) -> (address: Option<usize>)
        ensures
            address == self.delegate(),
            address != Some(0usize),
    {
        proof {
            use_type_invariant(self);
        }
        self.address
    }

    /// Takes the result of looking the symbol up (the null address if there
    /// is no such symbol) and gives the address to hand calls on to.
    ///
    /// The first address that is found stays: a later call returns it and
    /// changes nothing. A symbol that is not found is an error that names the
    /// symbol; the caller must not go on without the real function.
    pub fn resolve(&mut self, found: usize) -> (r: Result<usize, String>)
        ensures
            final(self).symbol() == old(self).symbol(),
            match old(self).delegate() {
                Some(address) => r == Ok::<usize, String>(address) && final(self).delegate()
                    == Some(address),
                None => if found == 0 {
                    &&& r is Err
                    &&& r->Err_0@ == missing_symbol_line(old(self).symbol())
                    &&& final(self).delegate() is None
                } else {
                    &&& r == Ok::<usize, String>(found)
                    &&& final(self).delegate() == Some(found)
                },
            },
    {
        match self.address {
            Some(address) => Ok(address),
            None => {
                if found == 0 {
                    let mut line = String::from_str("[*] Error: Unable to find function \"");
                    line.append(self.name.as_str());
                    line.append("\"");
                    Err(line)
                } else {
                    self.address = Some(found);
                    Ok(found)
                }
            },
        }
    }
}

} // verus!
