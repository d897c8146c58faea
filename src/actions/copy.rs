use vstd::prelude::*;

use super::traits::Action;
use crate::effect::{views_of, Effect, EffectSpec};

verus! {

/// Arguments of the action that copies a file.
pub struct CopyActionArgs {
    pub src: String,
    pub dest: String,
}

impl Clone for CopyActionArgs {
    fn clone(&self) -> (r: Self)
        ensures
            r.src@ == self.src@,
            r.dest@ == self.dest@,
    {
        CopyActionArgs { src: self.src.clone(), dest: self.dest.clone() }
    }
}

/// Copies `src` to `dest`, unless `dest` exists.
pub struct CopyAction {
    args: CopyActionArgs,
}

impl CopyAction {
    pub closed spec fn src(&self) -> Seq<char> {
        self.args.src@
    }

    pub closed spec fn dest(&self) -> Seq<char> {
        self.args.dest@
    }

    pub fn new(args: CopyActionArgs) -> (r: Self)
        ensures
            r.src() == args.src@,
            r.dest() == args.dest@,
    {
        Self { args }
    }
}

impl Action for CopyAction {
    open spec fn watched_spec(&self) -> Seq<Seq<char>> {
        seq![self.dest()]
    }

    open spec fn condition_spec(&self, present: Seq<bool>) -> bool {
        !present[0]
    }

    open spec fn effect_spec(&self) -> EffectSpec {
        EffectSpec::CopyFile(self.src(), self.dest())
    }

    fn watched(&self) -> (r: Vec<String>) {
        let r = vec![self.args.dest.clone()];
        assert(views_of(r@) =~= self.watched_spec());
        r
    }

    fn condition(&self, present: &Vec<bool>) -> (r: bool) {
        !present[0]
    }

    fn process(&self) -> (r: Effect) {
        Effect::CopyFile { src: self.args.src.clone(), dest: self.args.dest.clone() }
    }
}

} // verus!
