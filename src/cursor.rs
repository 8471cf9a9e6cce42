use vstd::prelude::*;

verus! {

/// The state of one pass over a layer's features: ready to fetch the next
/// feature, or exhausted once the native layer reported that none is left.
pub struct FeatureCursor {
    exhausted: bool,
}

impl FeatureCursor {
    pub closed spec fn exhausted(&self) -> bool {
        self.exhausted
    }

    /// A fresh pass, ready to fetch the first feature.
    pub fn new() -> (r: FeatureCursor)
        ensures
            !r.exhausted(),
    {
        FeatureCursor { exhausted: false }
    }

    /// Whether the next feature should be asked of the native layer.
    pub fn wants_fetch(&self) -> (r: bool)
        ensures
            r == !self.exhausted(),
    {
        !self.exhausted
    }

    /// Takes in whether the native layer handed out a feature, and says
    /// whether it is to be yielded. Once the layer has reported the end, the
    /// pass stays exhausted and yields nothing more.
    pub fn advance(&mut self, fetched: bool) -> (r: bool)
        ensures
            r == (!old(self).exhausted() && fetched),
            final(self).exhausted() == (old(self).exhausted() || !fetched),
    {
        if self.exhausted {
            false
        } else if fetched {
            true
        } else {
            self.exhausted = true;
            false
        }
    }
}

} // verus!
