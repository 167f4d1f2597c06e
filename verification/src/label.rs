use vstd::prelude::*;

verus! {

/// The text of an optional label, as a value of the specification.
pub open spec fn label_view(label: Option<String>) -> Option<Seq<char>> {
    match label {
        Some(s) => Some(s@),
        None => None,
    }
}

/// The label text of a portion of work as reported to the progress function:
/// the label itself, or the empty string where there is none.
pub fn label_text(label: Option<&str>) -> (text: &str)
    ensures
        text@ == match label {
            Some(l) => l@,
            None => Seq::<char>::empty(),
        },
{
    match label {
        Some(l) => l,
        None => {
            let empty = "";
            proof {
                reveal_strlit("");
            }
            empty
        },
    }
}

/// The name given to one portion of work. A portion made from another one inherits its
/// name unless it is given one of its own; a portion may also have no name at all.
pub struct PortionLabel {
    label: Option<String>,
}

impl View for PortionLabel {
    type V = Option<Seq<char>>;

    closed spec fn view(&self) -> Option<Seq<char>> {
        label_view(self.label)
    }
}

impl PortionLabel {
    /// No name: the state of the root portion of work.
    pub fn none() -> (l: PortionLabel)
        ensures
            l@ is None,
    {
        PortionLabel { label: None }
    }

    /// Gives the portion the name `label`, overwriting any name it had.
    pub fn set(&mut self, label: String)
        ensures
            final(self)@ == Some(label@),
    {
        self.label = Some(label);
    }

    /// The name of a portion made from this one: the same name.
    pub fn inherit(&self) -> (l: PortionLabel)
        ensures
            l@ == self@,
    {
        match &self.label {
            Some(s) => PortionLabel { label: Some(s.clone()) },
            None => PortionLabel { label: None },
        }
    }

    /// The name of a portion cut off from this one and described by `label`;
    /// this portion keeps its own name.
    pub fn cut_off(&self, label: String) -> (l: PortionLabel)
        ensures
            l@ == Some(label@),
    {
        let mut portion = self.inherit();
        portion.set(label);
        portion
    }

    /// The name, if there is one.
    pub fn as_option(&self) -> (r: Option<&str>)
        ensures
            match r {
                Some(t) => self@ == Some(t@),
                None => self@ is None,
            },
    {
        match &self.label {
            Some(s) => Some(s.as_str()),
            None => None,
        }
    }

    /// The name as reported to the progress function: empty where there is none.
    pub fn text(&self) -> (t: &str)
        ensures
            t@ == match self@ {
                Some(l) => l,
                None => Seq::<char>::empty(),
            },
    {
        label_text(self.as_option())
    }
}

} // verus!
