//! The browser flavours whose default profile can be asked for.

use vstd::prelude::*;

verus! {

/// An installed Firefox flavour. Flavours are only ever compared for
/// equality.
#[derive(PartialEq, Eq, Clone, Copy, Debug, Structural)]
pub enum FirefoxType {
    Release,
    Esr,
    Dev,
}

/// The flavour that a name stands for, if it is one of the three names.
pub open spec fn firefox_type_named(name: Seq<char>) -> Option<FirefoxType> {
    if name == "Release"@ {
        Some(FirefoxType::Release)
    } else if name == "Esr"@ {
        Some(FirefoxType::Esr)
    } else if name == "Dev"@ {
        Some(FirefoxType::Dev)
    } else {
        None
    }
}

impl FirefoxType {
    /// The name under which a flavour is written on the command line and in
    /// the configuration file.
    pub open spec fn spec_name(self) -> Seq<char> {
        match self {
            FirefoxType::Release => "Release"@,
            FirefoxType::Esr => "Esr"@,
            FirefoxType::Dev => "Dev"@,
        }
    }

    /// Reads a flavour from its exact name. Any other text is handed back
    /// unchanged as the error.
    pub fn from_str(source: &str) -> (parsed: Result<FirefoxType, String>)
        ensures
            match firefox_type_named(source@) {
                Some(flavour) => parsed == Ok::<FirefoxType, String>(flavour),
                None => parsed is Err && parsed->Err_0@ == source@,
            },
    {
        let given = source.to_owned();
        if given == "Release".to_owned() {
            Ok(FirefoxType::Release)
        } else if given == "Esr".to_owned() {
            Ok(FirefoxType::Esr)
        } else if given == "Dev".to_owned() {
            Ok(FirefoxType::Dev)
        } else {
            Err(given)
        }
    }

    /// The flavour's name.
    pub fn name(&self) -> (name: &'static str)
        ensures
            name@ == self.spec_name(),
    {
        match self {
            FirefoxType::Release => "Release",
            FirefoxType::Esr => "Esr",
            FirefoxType::Dev => "Dev",
        }
    }
}

/// Writing a flavour's name and reading it back gives the flavour again.
pub proof fn lemma_name_round_trip(flavour: FirefoxType)
    ensures
        firefox_type_named(flavour.spec_name()) == Some(flavour),
{
    reveal_strlit("Release");
    reveal_strlit("Esr");
    reveal_strlit("Dev");
    assert("Esr"@[0] != "Dev"@[0]);
}

} // verus!
