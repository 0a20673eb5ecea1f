use vstd::prelude::*;

verus! {

/// The autonomous routines the robot can run.
#[derive(Clone, Copy, Debug, PartialEq, Eq, Structural)]
pub enum Auto {
    Nothing,
}

/// `<str as PartialEq>::eq`. Trusted: claims the result is true exactly
/// when both strings hold the same sequence of characters, as std documents
/// for string equality.
#[verifier::external_body]
fn str_eq(a: &str, b: &str) -> (r: bool)
    ensures
        r == (a@ == b@),
{
    a == b
}

/// Every routine, in the order the dashboard chooser lists them.
pub open spec fn all_autos() -> Seq<Auto> {
    seq![Auto::Nothing]
}

impl Auto {
    /// The name under which the routine appears on the dashboard.
    pub open spec fn dashboard_name(self) -> Seq<char> {
        match self {
            Auto::Nothing => "Nothing"@,
        }
    }

    /// The routine whose dashboard name is `s`, if any.
    pub open spec fn named(s: Seq<char>) -> Option<Auto> {
        if s == "Nothing"@ {
            Some(Auto::Nothing)
        } else {
            None
        }
    }

    /// The routine chosen by the dashboard string `s`: the one of that name,
    /// or `Nothing` when no routine has that name.
    pub open spec fn chosen_by(s: Seq<char>) -> Auto {
        match Auto::named(s) {
            Some(a) => a,
            None => Auto::Nothing,
        }
    }

    /// Parses the routine selected on the dashboard; unknown names select `Nothing`.
    pub fn from_dashboard(s: &str) -> (a: Auto)
        ensures
            a == Auto::chosen_by(s@),
    {
        if str_eq(s, "Nothing") {
            Auto::Nothing
        } else {
            Auto::Nothing
        }
    }

    /// The dashboard name of this routine.
    pub fn name(&self) -> (n: &'static str)
        ensures
            n@ == self.dashboard_name(),
    {
        match self {
            Auto::Nothing => "Nothing",
        }
    }

    /// All routines, in chooser order.
    pub fn iterator() -> (v: Vec<Auto>)
        ensures
            v@ == all_autos(),
    {
        vec![Auto::Nothing]
    }

    /// The dashboard names of all routines, in chooser order.
    pub fn names() -> (v: Vec<String>)
        ensures
            v@.len() == all_autos().len(),
            forall|i: int| 0 <= i < v@.len() ==> #[trigger] v@[i]@ == all_autos()[i].dashboard_name(),
    {
        let autos = Auto::iterator();
        let mut names: Vec<String> = Vec::new();
        let mut i: usize = 0;
        while i < autos.len()
            invariant
                i <= autos.len(),
                autos@ == all_autos(),
                names@.len() == i,
                forall|j: int| 0 <= j < i ==> #[trigger] names@[j]@ == autos@[j].dashboard_name(),
            decreases autos.len() - i,
        {
            let n = autos[i].name().to_owned();
            names.push(n);
            i = i + 1;
        }
        names
    }
}

/// Choosing a routine by the name the dashboard shows for it gives that
/// routine back.
pub proof fn lemma_name_round_trip(a: Auto)
    ensures
        Auto::chosen_by(a.dashboard_name()) == a,
        Auto::named(a.dashboard_name()) == Some(a),
{
}

/// The chooser lists every routine.
pub proof fn lemma_chooser_lists_every_auto(a: Auto)
    ensures
        all_autos().contains(a),
{
    assert(all_autos()[0] == a);
}

/// No two routines in the chooser share a dashboard name.
pub proof fn lemma_names_distinct()
    ensures
        forall|i: int, j: int|
            0 <= i < all_autos().len() && 0 <= j < all_autos().len() && i != j
                ==> #[trigger] all_autos()[i].dashboard_name() != #[trigger] all_autos()[j].dashboard_name(),
{
}

} // verus!
