//! The descriptor of an application, and how one is made from the fields of
//! a decoded desktop entry.

use vstd::prelude::*;
use vstd::string::StringExecFns;

verus! {

/// Why no descriptor could be produced for an identifier.
#[derive(Debug, Clone, Copy, PartialEq, Eq, Structural)]
pub enum ResolveError {
    /// No search directory holds a readable file that parses.
    NotFound,
    /// The file that was found has no display name, or an empty one.
    MissingName,
    /// The file that was found has no launch command, or an empty one.
    MissingCommand,
}

impl ResolveError {
    /// The words of [`ResolveError::message`].
    pub open spec fn message_of(self, file_name: Seq<char>) -> Seq<char> {
        match self {
            ResolveError::NotFound => "Failed to find valid desktop file '"@ + file_name
                + "' in search paths"@,
            ResolveError::MissingName => "Desktop file '"@ + file_name + "' doesn't have `Name`"@,
            ResolveError::MissingCommand => "Desktop file '"@ + file_name
                + "' doesn't have `Exec`"@,
        }
    }

    /// What to tell the user: the file that was looked for, and what is wrong
    /// with it.
    pub fn message(&self, file_name: &str) -> (r: String)
        ensures
            r@ == self.message_of(file_name@),
    {
        match self {
            ResolveError::NotFound => String::from_str("Failed to find valid desktop file '")
                .concat(file_name).concat("' in search paths"),
            ResolveError::MissingName => String::from_str("Desktop file '").concat(
                file_name,
            ).concat("' doesn't have `Name`"),
            ResolveError::MissingCommand => String::from_str("Desktop file '").concat(
                file_name,
            ).concat("' doesn't have `Exec`"),
        }
    }
}

/// The three fields of a desktop entry that the applet reads, each as the
/// file gives it: absent, or the text after the `=` sign.
#[derive(Debug, Clone)]
pub struct EntryFields {
    pub name: Option<String>,
    pub icon: Option<String>,
    pub command: Option<String>,
}

/// [`EntryFields`] as mathematical values.
pub struct EntryFieldsView {
    pub name: Option<Seq<char>>,
    pub icon: Option<Seq<char>>,
    pub command: Option<Seq<char>>,
}

/// The characters of an optional string.
pub open spec fn text_of(s: Option<String>) -> Option<Seq<char>> {
    match s {
        Some(s) => Some(s@),
        None => None,
    }
}

impl View for EntryFields {
    type V = EntryFieldsView;

    open spec fn view(&self) -> EntryFieldsView {
        EntryFieldsView {
            name: text_of(self.name),
            icon: text_of(self.icon),
            command: text_of(self.command),
        }
    }
}

/// An application as the button shows and starts it. A descriptor always
/// carries a display name and a launch command, and neither is empty.
#[derive(Debug)]
pub struct Descriptor {
    name: String,
    icon: Option<String>,
    command: String,
}

/// [`Descriptor`] as mathematical values.
pub struct DescriptorView {
    pub name: Seq<char>,
    pub icon: Option<Seq<char>>,
    pub command: Seq<char>,
}

impl View for Descriptor {
    type V = DescriptorView;

    closed spec fn view(&self) -> DescriptorView {
        DescriptorView { name: self.name@, icon: text_of(self.icon), command: self.command@ }
    }
}

/// What [`Descriptor::from_fields`] makes of the fields of an entry. A field
/// that is absent is reported before one that is empty, and in each of the two
/// rounds the name comes before the command: an entry without a name lacks
/// the name; one with a name and without a command lacks the command; one
/// with both lacks the first of them that is empty, and where neither is, it
/// gives the descriptor with the same three texts.
pub open spec fn select(fields: EntryFieldsView) -> Result<DescriptorView, ResolveError> {
    match (fields.name, fields.command) {
        (None, _) => Err(ResolveError::MissingName),
        (Some(_), None) => Err(ResolveError::MissingCommand),
        (Some(name), Some(command)) => if name.len() == 0 {
            Err(ResolveError::MissingName)
        } else if command.len() == 0 {
            Err(ResolveError::MissingCommand)
        } else {
            Ok(DescriptorView { name, icon: fields.icon, command })
        },
    }
}

/// A result with its descriptor, if any, taken by its view.
pub open spec fn outcome_view(r: Result<Descriptor, ResolveError>) -> Result<
    DescriptorView,
    ResolveError,
> {
    match r {
        Ok(d) => Ok(d@),
        Err(e) => Err(e),
    }
}

impl Clone for Descriptor {
    fn clone(&self) -> (r: Descriptor)
        ensures
            r@ == self@,
    {
        proof {
            use_type_invariant(self);
        }
        let icon = match &self.icon {
            Some(icon) => Some(icon.clone()),
            None => None,
        };
        Descriptor { name: self.name.clone(), icon, command: self.command.clone() }
    }
}

impl Descriptor {
    #[verifier::type_invariant]
    spec fn populated(self) -> bool {
        self.name@.len() > 0 && self.command@.len() > 0
    }

    /// Builds the descriptor of an entry from its fields. The name and the
    /// command are required: an entry without one, or with an empty one, gives
    /// no descriptor but the error that names the field. A key that the file
    /// does not have is named before one that it has with nothing behind it.
    pub fn from_fields(fields: EntryFields) -> (r: Result<Descriptor, ResolveError>)
        ensures
            outcome_view(r) == select(fields@),
    {
        let EntryFields { name, icon, command } = fields;
        let name = match name {
            Some(name) => name,
            None => { return Err(ResolveError::MissingName); },
        };
        let command = match command {
            Some(command) => command,
            None => { return Err(ResolveError::MissingCommand); },
        };
        if name.as_str().is_empty() {
            return Err(ResolveError::MissingName);
        }
        if command.as_str().is_empty() {
            return Err(ResolveError::MissingCommand);
        }
        Ok(Descriptor { name, icon, command })
    }

    /// The display name: the label of the button.
    pub fn name(&self) -> (r: &str)
        ensures
            r@ == self@.name,
            r@.len() > 0,
    {
        proof {
            use_type_invariant(self);
        }
        self.name.as_str()
    }

    /// The icon reference, where the entry gave one.
    pub fn icon(&self) -> (r: Option<&str>)
        ensures
            r is Some <==> self@.icon is Some,
            r matches Some(s) ==> s@ == self@.icon->0,
    {
        match &self.icon {
            Some(s) => Some(s.as_str()),
            None => None,
        }
    }

    /// The launch command, as the shell will get it.
    pub fn command(&self) -> (r: &str)
        ensures
            r@ == self@.command,
            r@.len() > 0,
    {
        proof {
            use_type_invariant(self);
        }
        self.command.as_str()
    }
}

} // verus!
