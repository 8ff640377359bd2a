use vstd::prelude::*;

verus! {

/// A filesystem path as its sequence of components, outermost first
/// (`["/", "app", "python"]` for `/app/python`).
#[derive(Debug)]
pub struct AppPath {
    pub parts: Vec<String>,
}

impl View for AppPath {
    type V = Seq<Seq<char>>;

    open spec fn view(&self) -> Seq<Seq<char>> {
        self.parts@.map_values(|s: String| s@)
    }
}

/// The directory that contains `p`; none for a path without components.
pub open spec fn parent_of(p: Seq<Seq<char>>) -> Option<Seq<Seq<char>>> {
    if p.len() == 0 {
        None
    } else {
        Some(p.drop_last())
    }
}

impl AppPath {
    /// Builds a path from its components.
    pub fn from_parts(parts: Vec<String>) -> (r: AppPath)
        ensures
            r@ == parts@.map_values(|s: String| s@),
    {
        AppPath { parts }
    }

    /// The components, outermost first.
    pub fn parts(&self) -> (r: &Vec<String>)
        ensures
            r@.map_values(|s: String| s@) == self@,
    {
        &self.parts
    }

    /// A copy of this path.
    pub fn duplicate(&self) -> (r: AppPath)
        ensures
            r@ == self@,
    {
        let mut parts: Vec<String> = Vec::new();
        let mut i: usize = 0;
        while i < self.parts.len()
            invariant
                i <= self.parts@.len(),
                parts@.len() == i,
                forall|k: int| 0 <= k < i ==> #[trigger] parts@[k]@ == self.parts@[k]@,
            decreases self.parts@.len() - i,
        {
            parts.push(self.parts[i].clone());
            i = i + 1;
        }
        let r = AppPath { parts };
        assert(r@ =~= self@);
        r
    }

    /// This path with one more component at its end.
    pub fn join(&self, name: &str) -> (r: AppPath)
        ensures
            r@ == self@.push(name@),
    {
        let mut r = self.duplicate();
        r.parts.push(name.to_owned());
        assert(r@ =~= self@.push(name@));
        r
    }

    /// The directory that contains this path.
    pub fn parent(&self) -> (r: Option<AppPath>)
        ensures
            r matches Some(d) ==> parent_of(self@) == Some(d@),
            r is None <==> parent_of(self@) is None,
    {
        if self.parts.len() == 0 {
            None
        } else {
            let mut d = self.duplicate();
            d.parts.pop();
            assert(d@ =~= self@.drop_last());
            Some(d)
        }
    }
}

} // verus!
