//! Small value types shared by the messages of a node.
use vstd::prelude::*;
use vstd::std_specs::convert::FromSpecImpl;
use vstd::string::StringExecFns;

verus! {

/// Optional free-form details attached to a message.
#[derive(Clone, PartialEq, Eq, PartialOrd, Ord, Hash, Debug)]
pub struct OptionDetails(pub Option<String>);

impl View for OptionDetails {
    type V = Option<Seq<char>>;

    open spec fn view(&self) -> Option<Seq<char>> {
        match self.0 {
            Some(msg) => Some(msg@),
            None => None,
        }
    }
}

impl OptionDetails {
    /// The text of the details: nothing where there are none, otherwise
    /// `; "` before the message and `"` after it.
    pub open spec fn text(self) -> Seq<char> {
        match self@ {
            None => Seq::empty(),
            Some(msg) => seq![';', ' ', '"'] + msg + seq!['"'],
        }
    }

    /// Details that hold the given message.
    pub fn with(s: &str) -> (details: Self)
        ensures
            details@ == Some(s@),
    {
        OptionDetails(Some(String::from_str(s)))
    }

    /// No details.
    pub fn new() -> (details: Self)
        ensures
            details@ is None,
    {
        OptionDetails(None)
    }

    /// No details.
    pub fn none() -> (details: Self)
        ensures
            details@ is None,
    {
        OptionDetails(None)
    }

    /// Renders the details for the end of a message line.
    pub fn to_string(&self) -> (s: String)
        ensures
            s@ == self.text(),
    {
        match &self.0 {
            None => String::new(),
            Some(msg) => {
                let s = String::from_str("; \"").concat(msg.as_str()).concat("\"");
                proof {
                    reveal_strlit("; \"");
                    reveal_strlit("\"");
                    assert("; \""@ =~= seq![';', ' ', '"']);
                    assert("\""@ =~= seq!['"']);
                }
                s
            },
        }
    }
}

impl Default for OptionDetails {
    fn default() -> (details: Self)
        ensures
            details@ is None,
    {
        OptionDetails(None)
    }
}

impl From<String> for OptionDetails {
    fn from(s: String) -> (details: Self) {
        OptionDetails(Some(s))
    }
}

impl FromSpecImpl<String> for OptionDetails {
    open spec fn obeys_from_spec() -> bool {
        true
    }

    open spec fn from_spec(s: String) -> Self {
        OptionDetails(Some(s))
    }
}

impl<'a> From<&'a str> for OptionDetails {
    fn from(s: &'a str) -> (details: Self)
        ensures
            details@ == Some(s@),
    {
        OptionDetails(Some(String::from_str(s)))
    }
}

impl<'a> FromSpecImpl<&'a str> for OptionDetails {
    open spec fn obeys_from_spec() -> bool {
        false
    }

    open spec fn from_spec(s: &'a str) -> Self {
        arbitrary()
    }
}

} // verus!
