//! Supported SSD model variants.

use vstd::prelude::*;

verus! {

/// Supported SSD models.
#[derive(Clone, Copy, Debug, PartialEq, Eq, Structural)]
pub enum Model {
    T1,
    T3,
    T5,
}

/// The model that a name given on the command line selects: `t1`, `t3` or
/// `t5`, in either case of the letter.
pub open spec fn model_named(name: Seq<char>) -> Option<Model> {
    if name.len() == 2 && (name[0] == 't' || name[0] == 'T') {
        if name[1] == '1' {
            Some(Model::T1)
        } else if name[1] == '3' {
            Some(Model::T3)
        } else if name[1] == '5' {
            Some(Model::T5)
        } else {
            None
        }
    } else {
        None
    }
}

impl Model {
    /// Product id under which the drive enumerates while it is locked.
    pub open spec fn spec_locked_pid(self) -> u16 {
        match self {
            Model::T1 => 0x61f2,
            Model::T3 => 0x61f4,
            Model::T5 => 0x61f6,
        }
    }

    /// Product id under which the drive enumerates once unlocked.
    pub open spec fn spec_normal_pid(self) -> u16 {
        match self {
            Model::T1 => 0x61f1,
            Model::T3 => 0x61f3,
            Model::T5 => 0x61f5,
        }
    }

    /// The display name of the model.
    pub open spec fn spec_label(self) -> Seq<char> {
        match self {
            Model::T1 => "T1"@,
            Model::T3 => "T3"@,
            Model::T5 => "T5"@,
        }
    }

    /// Parses a model name. The name is compared without regard to the case
    /// of its letter: `t3` and `T3` both select the T3.
    pub fn from_str(s: &str) -> (m: Option<Self>)
        ensures
            m == model_named(s@),
    {
        if s.unicode_len() != 2 {
            return None;
        }
        let first = s.get_char(0);
        if first != 't' && first != 'T' {
            return None;
        }
        let digit = s.get_char(1);
        if digit == '1' {
            Some(Model::T1)
        } else if digit == '3' {
            Some(Model::T3)
        } else if digit == '5' {
            Some(Model::T5)
        } else {
            None
        }
    }

    #[verifier::when_used_as_spec(spec_locked_pid)]
    pub fn locked_pid(self) -> (pid: u16)
        ensures
            pid == self.spec_locked_pid(),
    {
        match self {
            Model::T1 => 0x61f2,
            Model::T3 => 0x61f4,
            Model::T5 => 0x61f6,
        }
    }

    #[verifier::when_used_as_spec(spec_normal_pid)]
    pub fn normal_pid(self) -> (pid: u16)
        ensures
            pid == self.spec_normal_pid(),
    {
        match self {
            Model::T1 => 0x61f1,
            Model::T3 => 0x61f3,
            Model::T5 => 0x61f5,
        }
    }

    pub fn label(self) -> (l: &'static str)
        ensures
            l@ == self.spec_label(),
    {
        match self {
            Model::T1 => "T1",
            Model::T3 => "T3",
            Model::T5 => "T5",
        }
    }
}

/// A model's label is a name that selects that model again.
pub proof fn lemma_label_names_model(m: Model)
    ensures
        model_named(m.spec_label()) == Some(m),
{
    reveal_strlit("T1");
    reveal_strlit("T3");
    reveal_strlit("T5");
}

/// The product ids tell the models and their lock states apart: no two models
/// share a locked or an unlocked id, and no locked id is an unlocked one.
pub proof fn lemma_pids_distinct(a: Model, b: Model)
    ensures
        a.spec_locked_pid() == b.spec_locked_pid() ==> a == b,
        a.spec_normal_pid() == b.spec_normal_pid() ==> a == b,
        a.spec_locked_pid() != b.spec_normal_pid(),
{
}

/// A name selects a model exactly when it is the model's label or the label
/// with a lower-case letter: `T3` and `t3` select the T3, and nothing else
/// does.
pub proof fn lemma_names_of_model(name: Seq<char>, m: Model)
    ensures
        model_named(name) == Some(m) <==> (name =~= m.spec_label() || name =~= seq!['t']
            + m.spec_label().drop_first()),
{
    reveal_strlit("T1");
    reveal_strlit("T3");
    reveal_strlit("T5");
    if name.len() == 2 {
        assert((seq!['t'] + m.spec_label().drop_first())[0] == 't');
        assert((seq!['t'] + m.spec_label().drop_first())[1] == m.spec_label()[1]);
    }
}

} // verus!
