//! Exclude-pattern lists for transfers: separate push and pull lists, with a
//! shared list merged into each.

use vstd::prelude::*;
use vstd::string::*;

verus! {

/// The patterns of an optional list, or nothing.
pub open spec fn spec_opt_patterns(o: Option<Vec<String>>) -> Seq<Seq<char>> {
    match o {
        Option::Some(v) => v.deep_view(),
        Option::None => seq![],
    }
}

/// Exclude patterns applied to pushes, to pulls, or to both.
#[derive(Clone, Debug)]
pub struct Ignore {
    pub push: Option<Vec<String>>,
    pub pull: Option<Vec<String>>,
    pub both: Option<Vec<String>>,
}

fn append_patterns(dst: &mut Vec<String>, src: &Option<Vec<String>>)
    ensures
        final(dst).deep_view() == old(dst).deep_view() + spec_opt_patterns(*src),
{
    match src {
        Option::None => {
            proof {
                assert(dst.deep_view() =~~= old(dst).deep_view() + spec_opt_patterns(*src));
            }
        },
        Option::Some(v) => {
            let mut i: usize = 0;
            proof {
                assert(dst.deep_view() =~~= old(dst).deep_view() + v.deep_view().take(0));
            }
            while i < v.len()
                invariant
                    i <= v.len(),
                    dst.deep_view() == old(dst).deep_view() + v.deep_view().take(i as int),
                decreases v.len() - i,
            {
                let ghost pre = dst.deep_view();
                dst.push(v[i].clone());
                proof {
                    assert(dst.deep_view() =~~= pre.push(v.deep_view()[i as int]));
                    assert(old(dst).deep_view() + v.deep_view().take(i + 1) =~~= pre.push(
                        v.deep_view()[i as int],
                    ));
                }
                i = i + 1;
            }
            proof {
                assert(v.deep_view().take(v.len() as int) =~~= v.deep_view());
            }
        },
    }
}

impl Ignore {
    pub fn new(push: Option<Vec<String>>, pull: Option<Vec<String>>, both: Option<Vec<String>>) -> (r:
        Ignore)
        ensures
            r.push == push,
            r.pull == pull,
            r.both == both,
    {
        Ignore { push, pull, both }
    }

    /// The patterns excluded from a push: the push list, then the shared list.
    pub fn push(&self) -> (r: Vec<String>)
        ensures
            r.deep_view() == spec_opt_patterns(self.push) + spec_opt_patterns(self.both),
    {
        let mut r: Vec<String> = Vec::new();
        proof {
            assert(r.deep_view() =~~= Seq::<Seq<char>>::empty());
        }
        append_patterns(&mut r, &self.push);
        append_patterns(&mut r, &self.both);
        proof {
            assert(r.deep_view() =~~= spec_opt_patterns(self.push) + spec_opt_patterns(self.both));
        }
        r
    }

    /// The patterns excluded from a pull: the pull list, then the shared list.
    pub fn pull(&self) -> (r: Vec<String>)
        ensures
            r.deep_view() == spec_opt_patterns(self.pull) + spec_opt_patterns(self.both),
    {
        let mut r: Vec<String> = Vec::new();
        proof {
            assert(r.deep_view() =~~= Seq::<Seq<char>>::empty());
        }
        append_patterns(&mut r, &self.pull);
        append_patterns(&mut r, &self.both);
        proof {
            assert(r.deep_view() =~~= spec_opt_patterns(self.pull) + spec_opt_patterns(self.both));
        }
        r
    }
}

} // verus!
