use vstd::prelude::*;

verus! {

/// The staff role a post was made under, one of a closed set.
#[derive(Debug, Clone, Copy, PartialEq, Eq, Structural)]
pub enum Capcode {
    Mod,
    Admin,
    AdminHighlight,
    Manager,
    Developer,
    Founder,
}

/// The text that stands for each capcode in a post's `capcode` field.
pub open spec fn capcode_name(c: Capcode) -> Seq<char> {
    match c {
        Capcode::Mod => "mod"@,
        Capcode::Admin => "admin"@,
        Capcode::AdminHighlight => "admin_highlight"@,
        Capcode::Manager => "manager"@,
        Capcode::Developer => "developer"@,
        Capcode::Founder => "founder"@,
    }
}

/// The capcode whose wire name is `s`, if there is one.
pub open spec fn capcode_of(s: Seq<char>) -> Option<Capcode> {
    if s == "mod"@ {
        Some(Capcode::Mod)
    } else if s == "admin"@ {
        Some(Capcode::Admin)
    } else if s == "admin_highlight"@ {
        Some(Capcode::AdminHighlight)
    } else if s == "manager"@ {
        Some(Capcode::Manager)
    } else if s == "developer"@ {
        Some(Capcode::Developer)
    } else if s == "founder"@ {
        Some(Capcode::Founder)
    } else {
        None
    }
}

/// Every capcode is read back from its own wire name, and a text that names
/// a capcode is that capcode's wire name.
pub proof fn lemma_capcode_name_round_trip(c: Capcode, s: Seq<char>)
    ensures
        capcode_of(capcode_name(c)) == Some(c),
        capcode_of(s) is Some ==> capcode_name(capcode_of(s)->Some_0) == s,
{
    reveal_strlit("mod");
    reveal_strlit("admin");
    reveal_strlit("admin_highlight");
    reveal_strlit("manager");
    reveal_strlit("developer");
    reveal_strlit("founder");
    assert("mod"@.len() == 3);
    assert("admin"@.len() == 5);
    assert("admin_highlight"@.len() == 15);
    assert("manager"@.len() == 7);
    assert("developer"@.len() == 9);
    assert("founder"@.len() == 7);
    assert("manager"@[0] != "founder"@[0]);
}

impl Capcode {
    /// The wire name of this capcode.
    pub fn name(&self) -> (r: String)
        ensures
            r@ == capcode_name(*self),
    {
        match self {
            Capcode::Mod => "mod".to_owned(),
            Capcode::Admin => "admin".to_owned(),
            Capcode::AdminHighlight => "admin_highlight".to_owned(),
            Capcode::Manager => "manager".to_owned(),
            Capcode::Developer => "developer".to_owned(),
            Capcode::Founder => "founder".to_owned(),
        }
    }

    /// The capcode whose wire name is `s`; `None` for any other text.
    pub fn from_name(s: &String) -> (r: Option<Capcode>)
        ensures
            r == capcode_of(s@),
    {
        if *s == "mod".to_owned() {
            Some(Capcode::Mod)
        } else if *s == "admin".to_owned() {
            Some(Capcode::Admin)
        } else if *s == "admin_highlight".to_owned() {
            Some(Capcode::AdminHighlight)
        } else if *s == "manager".to_owned() {
            Some(Capcode::Manager)
        } else if *s == "developer".to_owned() {
            Some(Capcode::Developer)
        } else if *s == "founder".to_owned() {
            Some(Capcode::Founder)
        } else {
            None
        }
    }
}

} // verus!
