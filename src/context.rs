use vstd::prelude::*;
use crate::draw::RenderError;

verus! {

/// The shader sources a program is compiled from.
pub type SourcePair = (Seq<char>, Seq<char>);

/// A compiled shader program, named by its place in the context's program cache.
#[derive(Clone, Copy, Debug, PartialEq, Eq, Structural)]
pub struct Program {
    pub id: usize,
}

/// The rendering context: owns the cache of compiled shader programs, keyed by their
/// (vertex, fragment) source text. A program's handle is the place of its sources in
/// the cache, which only grows.
pub struct Context {
    programs: Vec<(String, String)>,
}

pub open spec fn no_duplicates(s: Seq<SourcePair>) -> bool {
    forall|i: int, j: int| 0 <= i < s.len() && 0 <= j < s.len() && i != j ==> s[i] != s[j]
}

impl Context {
    /// The sources of every program compiled so far, in order of first request.
    pub closed spec fn sources(&self) -> Seq<SourcePair> {
        self.programs@.map_values(|p: (String, String)| (p.0@, p.1@))
    }

    /// Each source pair is compiled at most once.
    pub open spec fn wf(&self) -> bool {
        no_duplicates(self.sources())
    }

    pub fn new() -> (r: Context)
        ensures
            r.wf(),
            r.sources().len() == 0,
    {
        let r = Context { programs: Vec::new() };
        assert(r.sources() =~= Seq::empty());
        r
    }

    /// Number of programs in the cache.
    pub fn program_count(&self) -> (r: usize)
        ensures
            r == self.sources().len(),
    {
        self.programs.len()
    }

    /// The program compiled from `vertex` and `fragment`, and whether it had to be compiled
    /// now. Sources seen before give back their program and leave the cache as it is; new
    /// sources get the next handle.
    pub fn program(&mut self, vertex: &str, fragment: &str) -> (r: (Program, bool))
        requires
            old(self).wf(),
        ensures
            final(self).wf(),
            r.0.id < final(self).sources().len(),
            final(self).sources()[r.0.id as int] == (vertex@, fragment@),
            r.1 == !old(self).sources().contains((vertex@, fragment@)),
            r.1 ==> final(self).sources() == old(self).sources().push((vertex@, fragment@))
                && r.0.id == old(self).sources().len(),
            !r.1 ==> final(self).sources() == old(self).sources(),
    {
        let v = String::from_str(vertex);
        let f = String::from_str(fragment);
        let ghost key = (vertex@, fragment@);
        let mut i: usize = 0;
        while i < self.programs.len()
            invariant
                0 <= i <= self.programs.len(),
                v@ == vertex@ && f@ == fragment@,
                key == (vertex@, fragment@),
                self.wf(),
                self.sources() == old(self).sources(),
                forall|j: int| 0 <= j < i ==> #[trigger] self.sources()[j] != key,
            decreases self.programs.len() - i,
        {
            let same = self.programs[i].0 == v && self.programs[i].1 == f;
            assert(self.sources()[i as int] == (self.programs[i as int].0@, self.programs[i as int].1@));
            if same {
                assert(self.sources().contains(key));
                return (Program { id: i }, false);
            }
            i = i + 1;
        }
        assert(!self.sources().contains(key));
        let ghost before = self.sources();
        let n = self.programs.len();
        self.programs.push((v, f));
        assert(self.sources() =~= before.push(key));
        (Program { id: n }, true)
    }
}

impl Context {
    /// Takes back the program just added to the cache, whose compilation failed, so
    /// that the cache holds only programs that compiled; the failure becomes the error
    /// of the draw that asked for the program.
    pub fn reject_program(&mut self, program: Program, diagnostic: String) -> (r: RenderError)
        requires
            old(self).wf(),
            program.id + 1 == old(self).sources().len(),
        ensures
            final(self).wf(),
            final(self).sources() == old(self).sources().drop_last(),
            r == RenderError::ShaderCompile(diagnostic),
    {
        let ghost before = self.sources();
        self.programs.pop();
        assert(self.sources() =~= before.drop_last());
        RenderError::ShaderCompile(diagnostic)
    }
}

/// Two handles from one cache are equal exactly when the (vertex, fragment) sources they
/// were compiled from are equal: a source pair requested again gets the program compiled
/// the first time, and different sources never share a program.
pub proof fn lemma_program_handles(c: &Context, a: Program, b: Program)
    requires
        c.wf(),
        a.id < c.sources().len(),
        b.id < c.sources().len(),
    ensures
        (a == b) <==> c.sources()[a.id as int] == c.sources()[b.id as int],
{
}

} // verus!
