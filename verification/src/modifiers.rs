use vstd::prelude::*;
use crate::span::Span;

verus! {

/// A modifier keyword in front of a declaration or element.
#[derive(Clone, Copy, Debug, PartialEq, Eq, Structural)]
pub enum ModifierKind {
    Declare,
    Abstract,
    Export,
    Async,
    Static,
    Readonly,
    Public,
    Private,
    Protected,
    Override,
    Accessor,
    Const,
}

/// TypeScript accessibility of an element.
#[derive(Clone, Copy, Debug, PartialEq, Eq, Structural)]
pub enum Accessibility {
    Public,
    Private,
    Protected,
}

/// One modifier with its source range.
#[derive(Clone, Copy, Debug, PartialEq, Eq, Structural)]
pub struct Modifier {
    pub kind: ModifierKind,
    pub span: Span,
}

/// The modifiers in front of a declaration, in source order.
#[derive(Debug)]
pub struct Modifiers {
    pub list: Vec<Modifier>,
}

/// A set of modifier kinds: the kinds listed, or all kinds but those listed.
#[derive(Debug)]
pub struct ModifierKinds {
    pub kinds: Vec<ModifierKind>,
    pub complement: bool,
}

pub open spec fn modifiers_contain(ms: Seq<Modifier>, k: ModifierKind) -> bool {
    exists|i: int| 0 <= i < ms.len() && #[trigger] ms[i].kind == k
}

pub open spec fn accessibility_of_kind(k: ModifierKind) -> Option<Accessibility> {
    match k {
        ModifierKind::Public => Some(Accessibility::Public),
        ModifierKind::Private => Some(Accessibility::Private),
        ModifierKind::Protected => Some(Accessibility::Protected),
        _ => None,
    }
}

/// The accessibility that the first accessibility modifier gives.
pub open spec fn accessibility_of(ms: Seq<Modifier>) -> Option<Accessibility>
    decreases ms.len(),
{
    if ms.len() == 0 {
        None
    } else if accessibility_of_kind(ms[0].kind) is Some {
        accessibility_of_kind(ms[0].kind)
    } else {
        accessibility_of(ms.drop_first())
    }
}

impl ModifierKinds {
    pub open spec fn allows(&self, k: ModifierKind) -> bool {
        self.complement != self.kinds@.contains(k)
    }

    /// Exactly the kinds listed.
    pub fn new(kinds: &[ModifierKind]) -> (r: ModifierKinds)
        ensures
            r.kinds@ == kinds@,
            !r.complement,
    {
        ModifierKinds { kinds: copy_kinds(kinds), complement: false }
    }

    /// Every kind but those listed.
    pub fn all_except(kinds: &[ModifierKind]) -> (r: ModifierKinds)
        ensures
            r.kinds@ == kinds@,
            r.complement,
    {
        ModifierKinds { kinds: copy_kinds(kinds), complement: true }
    }

    pub fn contains(&self, k: ModifierKind) -> (r: bool)
        ensures
            r == self.allows(k),
    {
        let mut i: usize = 0;
        while i < self.kinds.len()
            invariant
                i <= self.kinds.len(),
                forall|j: int| 0 <= j < i ==> self.kinds@[j] != k,
            decreases self.kinds.len() - i,
        {
            if self.kinds[i] == k {
                return !self.complement;
            }
            i = i + 1;
        }
        self.complement
    }
}

fn copy_kinds(kinds: &[ModifierKind]) -> (r: Vec<ModifierKind>)
    ensures
        r@ == kinds@,
{
    let mut r: Vec<ModifierKind> = Vec::new();
    let mut i: usize = 0;
    while i < kinds.len()
        invariant
            i <= kinds.len(),
            r@ == kinds@.take(i as int),
        decreases kinds.len() - i,
    {
        r.push(kinds[i]);
        i = i + 1;
        assert(r@ == kinds@.take(i as int));
    }
    assert(kinds@.take(kinds.len() as int) == kinds@);
    r
}

impl Modifiers {
    pub fn contains(&self, k: ModifierKind) -> (r: bool)
        ensures
            r == modifiers_contain(self.list@, k),
    {
        let mut i: usize = 0;
        while i < self.list.len()
            invariant
                i <= self.list.len(),
                forall|j: int| 0 <= j < i ==> self.list@[j].kind != k,
            decreases self.list.len() - i,
        {
            if self.list[i].kind == k {
                return true;
            }
            i = i + 1;
        }
        false
    }

    pub fn accessibility(&self) -> (r: Option<Accessibility>)
        ensures
            r == accessibility_of(self.list@),
    {
        let mut i: usize = 0;
        assert(self.list@.skip(0) == self.list@);
        while i < self.list.len()
            invariant
                i <= self.list.len(),
                accessibility_of(self.list@) == accessibility_of(self.list@.skip(i as int)),
            decreases self.list.len() - i,
        {
            let k = self.list[i].kind;
            assert(self.list@.skip(i as int)[0] == self.list@[i as int]);
            assert(self.list@.skip(i as int).drop_first() == self.list@.skip(i + 1));
            match k {
                ModifierKind::Public => return Some(Accessibility::Public),
                ModifierKind::Private => return Some(Accessibility::Private),
                ModifierKind::Protected => return Some(Accessibility::Protected),
                _ => {},
            }
            i = i + 1;
        }
        None
    }
}

} // verus!
