//! The record of calls, and what makes a record fit to be run.

use crate::backend::call::{Call, CallView, Kind, Op};
use vstd::prelude::*;
use vstd::string::StringSliceAdditionalSpecFns;
use vstd::utf8::encode_utf8;

verus! {

/// Whether `text` can be passed as a C string: its encoding holds no zero byte.
pub open spec fn c_text(text: Seq<char>) -> bool {
    forall|i: int| 0 <= i < encode_utf8(text).len() ==> #[trigger] encode_utf8(text)[i] != 0u8
}

/// Whether the call at position `j` of `calls` releases the object that call
/// `id` replied with.
pub open spec fn releases_at(calls: Seq<CallView>, j: int, id: usize) -> bool {
    calls[j].op.releases() && calls[j].args.len() >= 1 && calls[j].args[0] == id
}

/// Whether some call of `calls` releases the object that call `id` replied with.
pub open spec fn released(calls: Seq<CallView>, id: usize) -> bool {
    exists|j: int| 0 <= j < calls.len() && #[trigger] releases_at(calls, j, id)
}

/// The context that the reply of call `id` belongs to, as far as the record
/// shows it: the reply itself where the call makes a context, and else the
/// context of the call's first operand. None where the call takes no operand.
pub open spec fn context_of(calls: Seq<CallView>, id: usize) -> Option<usize>
    decreases id,
{
    if id >= calls.len() {
        None
    } else if calls[id as int].op == Op::ContextCreate {
        Some(id)
    } else if calls[id as int].args.len() > 0 && calls[id as int].args[0] < id {
        context_of(calls, calls[id as int].args[0])
    } else {
        None
    }
}

/// The module that the reply of call `id` belongs to, as far as the record
/// shows it: the reply itself where the call makes a module, and else the
/// module of the call's first operand. None where that operand has none: for
/// what a builder builds the record does not show the module.
pub open spec fn module_of(calls: Seq<CallView>, id: usize) -> Option<usize>
    decreases id,
{
    if id >= calls.len() {
        None
    } else if calls[id as int].op.gives() == Kind::Module {
        Some(id)
    } else if calls[id as int].args.len() > 0 && calls[id as int].args[0] < id {
        module_of(calls, calls[id as int].args[0])
    } else {
        None
    }
}

/// Whether `owner` is an object that some call of `calls` releases.
pub open spec fn owner_released(calls: Seq<CallView>, owner: Option<usize>) -> bool {
    owner matches Some(o) && released(calls, o)
}

/// Whether `id` stands, after `calls`, for an object of kind `kind` that is
/// still there: call `id` is one of `calls`, it replies with that kind, and no
/// call of `calls` releases its reply, nor the context or the module that the
/// reply belongs to.
pub open spec fn holds(calls: Seq<CallView>, id: usize, kind: Kind) -> bool {
    &&& id < calls.len()
    &&& calls[id as int].op.gives() == kind
    &&& !released(calls, id)
    &&& !owner_released(calls, context_of(calls, id))
    &&& !owner_released(calls, module_of(calls, id))
}

/// Whether releasing the object `target` takes away the reply of call `id`:
/// whether it is that reply, its context or its module.
pub open spec fn takes_away(calls: Seq<CallView>, target: usize, id: usize) -> bool {
    target == id || context_of(calls, id) == Some(target) || module_of(calls, id) == Some(target)
}

/// Whether each of `ids` stands, after `calls`, for an unreleased object of kind `kind`.
pub open spec fn all_hold(calls: Seq<CallView>, ids: Seq<usize>, kind: Kind) -> bool {
    forall|k: int| 0 <= k < ids.len() ==> holds(calls, #[trigger] ids[k], kind)
}

/// Whether the call `c` may follow the calls `before`: it has the operands
/// that its function takes, each the reply of an earlier call, still there
/// and of the kind that the function takes in that place; its arrays are no longer than a
/// 32-bit count; its text can be passed as a C string; and its number fits
/// where the function takes it.
pub open spec fn admissible(c: CallView, before: Seq<CallView>) -> bool {
    &&& c.args.len() == c.op.takes().len()
    &&& forall|k: int|
        0 <= k < c.args.len() ==> holds(before, #[trigger] c.args[k], c.op.takes()[k])
    &&& match c.op.takes_list() {
        Some(kind) => c.list.len() <= u32::MAX && all_hold(before, c.list, kind),
        None => c.list.len() == 0,
    }
    &&& if c.op.takes_blocks() {
        c.blocks.len() == c.list.len() && all_hold(before, c.blocks, Kind::Block)
    } else {
        c.blocks.len() == 0
    }
    &&& c_text(c.text)
    &&& c.op.narrow() ==> c.number <= u32::MAX
}

/// Whether every call of `calls` may follow the calls before it. Such a
/// record never names the reply of a later call, nor a reply of the wrong
/// kind, nor an object after its release or after the release of its context
/// or module, and releases no object twice.
pub open spec fn wf(calls: Seq<CallView>) -> bool {
    forall|i: int| 0 <= i < calls.len() ==> #[trigger] admissible(calls[i], calls.take(i))
}

/// A well-formed record stays well-formed when a call that may follow it is added.
pub proof fn lemma_wf_push(calls: Seq<CallView>, c: CallView)
    requires
        wf(calls),
        admissible(c, calls),
    ensures
        wf(calls.push(c)),
{
    let after = calls.push(c);
    assert forall|i: int| 0 <= i < after.len() implies #[trigger] admissible(
        after[i],
        after.take(i),
    ) by {
        if i < calls.len() {
            assert(after.take(i) =~= calls.take(i));
            assert(admissible(calls[i], calls.take(i)));
        } else {
            assert(after.take(i) =~= calls);
        }
    }
}

/// No call of a well-formed record releases the reply of a call that is not
/// yet made.
pub proof fn lemma_wf_not_released_ahead(calls: Seq<CallView>, id: usize)
    requires
        wf(calls),
        id >= calls.len(),
    ensures
        !released(calls, id),
{
    assert forall|j: int| 0 <= j < calls.len() implies !#[trigger] releases_at(calls, j, id) by {
        if releases_at(calls, j, id) {
            assert(admissible(calls[j], calls.take(j)));
            assert(calls[j].op.takes().len() >= 1);
            assert(holds(calls.take(j), calls[j].args[0], calls[j].op.takes()[0]));
        }
    }
}

/// Once an object is released, no later call of a well-formed record takes
/// it as an operand, nor an object that belongs to it: there is no use after
/// release and no second release.
pub proof fn lemma_no_use_after_release(calls: Seq<CallView>, j: int, i: int, id: usize)
    requires
        wf(calls),
        0 <= j < i < calls.len(),
        releases_at(calls, j, id),
    ensures
        forall|k: int|
            0 <= k < calls[i].args.len() ==> !takes_away(
                calls.take(i),
                id,
                #[trigger] calls[i].args[k],
            ),
        forall|k: int|
            0 <= k < calls[i].list.len() ==> !takes_away(
                calls.take(i),
                id,
                #[trigger] calls[i].list[k],
            ),
        forall|k: int|
            0 <= k < calls[i].blocks.len() ==> !takes_away(
                calls.take(i),
                id,
                #[trigger] calls[i].blocks[k],
            ),
{
    let before = calls.take(i);
    let c = calls[i];
    assert(admissible(c, before));
    assert(before[j] == calls[j]);
    assert(releases_at(before, j, id));
    assert(released(before, id));
    assert forall|k: int| 0 <= k < c.args.len() implies !takes_away(
        before,
        id,
        #[trigger] c.args[k],
    ) by {
        assert(holds(before, c.args[k], c.op.takes()[k]));
    }
    assert forall|k: int| 0 <= k < c.list.len() implies !takes_away(
        before,
        id,
        #[trigger] c.list[k],
    ) by {
        assert(holds(before, c.list[k], c.op.takes_list()->0));
    }
    assert forall|k: int| 0 <= k < c.blocks.len() implies !takes_away(
        before,
        id,
        #[trigger] c.blocks[k],
    ) by {
        assert(holds(before, c.blocks[k], Kind::Block));
    }
}

/// Every operand of a call of a well-formed record is the reply of an
/// earlier call, and of the kind that the call's function takes in that
/// place.
pub proof fn lemma_operands_are_earlier_replies(calls: Seq<CallView>, i: int)
    requires
        wf(calls),
        0 <= i < calls.len(),
    ensures
        calls[i].args.len() == calls[i].op.takes().len(),
        forall|k: int|
            0 <= k < calls[i].args.len() ==> (#[trigger] calls[i].args[k]) < i && calls[calls[i].args[k] as int].op.gives()
                == calls[i].op.takes()[k],
        forall|k: int|
            0 <= k < calls[i].list.len() ==> (#[trigger] calls[i].list[k]) < i && Some(
                calls[calls[i].list[k] as int].op.gives(),
            ) == calls[i].op.takes_list(),
        forall|k: int|
            0 <= k < calls[i].blocks.len() ==> (#[trigger] calls[i].blocks[k]) < i
                && calls[calls[i].blocks[k] as int].op.gives() == Kind::Block,
{
    let before = calls.take(i);
    let c = calls[i];
    assert(admissible(c, before));
    assert forall|k: int| 0 <= k < c.args.len() implies (#[trigger] c.args[k]) < i
        && calls[c.args[k] as int].op.gives() == c.op.takes()[k] by {
        assert(holds(before, c.args[k], c.op.takes()[k]));
    }
    assert forall|k: int| 0 <= k < c.list.len() implies (#[trigger] c.list[k]) < i && Some(
        calls[c.list[k] as int].op.gives(),
    ) == c.op.takes_list() by {
        assert(holds(before, c.list[k], c.op.takes_list()->0));
    }
    assert forall|k: int| 0 <= k < c.blocks.len() implies (#[trigger] c.blocks[k]) < i
        && calls[c.blocks[k] as int].op.gives() == Kind::Block by {
        assert(holds(before, c.blocks[k], Kind::Block));
    }
}

/// The context and the module of a reply lie at or before the reply.
pub proof fn lemma_owner_bound(calls: Seq<CallView>, id: usize)
    ensures
        context_of(calls, id) matches Some(o) ==> o <= id && o < calls.len(),
        module_of(calls, id) matches Some(o) ==> o <= id && o < calls.len(),
    decreases id,
{
    if id < calls.len() && calls[id as int].args.len() > 0 && calls[id as int].args[0] < id {
        lemma_owner_bound(calls, calls[id as int].args[0]);
    }
}

/// The context and the module of a reply depend on the calls up to the
/// reply alone.
pub proof fn lemma_owner_agree(a: Seq<CallView>, b: Seq<CallView>, id: usize)
    requires
        id < a.len(),
        id < b.len(),
        forall|k: int| 0 <= k <= id ==> a[k] == b[k],
    ensures
        context_of(a, id) == context_of(b, id),
        module_of(a, id) == module_of(b, id),
    decreases id,
{
    assert(a[id as int] == b[id as int]);
    if a[id as int].args.len() > 0 && a[id as int].args[0] < id {
        lemma_owner_agree(a, b, a[id as int].args[0]);
    }
}

/// What a call that is added releases, besides what was released before: its
/// first operand where it is a release, and nothing else.
pub proof fn lemma_released_push(calls: Seq<CallView>, c: CallView, id: usize)
    ensures
        released(calls.push(c), id) <==> released(calls, id) || (c.op.releases() && c.args.len()
            >= 1 && c.args[0] == id),
{
    let after = calls.push(c);
    if released(calls, id) {
        let w = choose|w: int| 0 <= w < calls.len() && #[trigger] releases_at(calls, w, id);
        assert(after[w] == calls[w]);
        assert(releases_at(after, w, id));
    }
    if c.op.releases() && c.args.len() >= 1 && c.args[0] == id {
        assert(releases_at(after, calls.len() as int, id));
    }
    if released(after, id) {
        let w = choose|w: int| 0 <= w < after.len() && #[trigger] releases_at(after, w, id);
        if w < calls.len() {
            assert(after[w] == calls[w]);
            assert(releases_at(calls, w, id));
        }
    }
}

/// An object that is held stays held when a call is added that releases
/// neither the object nor its context nor its module.
pub proof fn lemma_holds_push(calls: Seq<CallView>, c: CallView, id: usize, kind: Kind)
    requires
        holds(calls, id, kind),
        !(c.op.releases() && c.args.len() >= 1 && takes_away(calls, c.args[0], id)),
    ensures
        holds(calls.push(c), id, kind),
{
    let after = calls.push(c);
    assert forall|k: int| 0 <= k <= id implies calls[k] == after[k] by {}
    lemma_owner_agree(calls, after, id);
    lemma_released_push(calls, c, id);
    if context_of(calls, id) is Some {
        lemma_released_push(calls, c, context_of(calls, id)->0);
    }
    if module_of(calls, id) is Some {
        lemma_released_push(calls, c, module_of(calls, id)->0);
    }
}

/// The reply of a call that is added to a well-formed record, that may
/// follow it and that is no release, is held afterwards under the kind that
/// its function gives.
pub proof fn lemma_holds_new(calls: Seq<CallView>, c: CallView)
    requires
        wf(calls),
        admissible(c, calls),
        !c.op.releases(),
        calls.len() <= usize::MAX,
    ensures
        holds(calls.push(c), calls.len() as usize, c.op.gives()),
{
    let after = calls.push(c);
    let id = calls.len() as usize;
    lemma_wf_not_released_ahead(calls, id);
    lemma_released_push(calls, c, id);
    if c.args.len() > 0 {
        let first = c.args[0];
        assert(holds(calls, first, c.op.takes()[0]));
        assert forall|k: int| 0 <= k <= first implies calls[k] == after[k] by {}
        lemma_owner_agree(calls, after, first);
        if context_of(calls, first) is Some {
            lemma_released_push(calls, c, context_of(calls, first)->0);
        }
        if module_of(calls, first) is Some {
            lemma_released_push(calls, c, module_of(calls, first)->0);
        }
    }
}

/// What recording a call that may follow a well-formed record gives: a
/// well-formed record in which, unless the call is a release, the reply of
/// the new call is held under the kind that its function gives and every
/// object that was held is still held.
pub proof fn lemma_record(calls: Seq<CallView>, c: CallView)
    requires
        wf(calls),
        admissible(c, calls),
    ensures
        wf(calls.push(c)),
        !c.op.releases() && calls.len() <= usize::MAX ==> holds(
            calls.push(c),
            calls.len() as usize,
            c.op.gives(),
        ),
        !c.op.releases() ==> forall|id: usize, kind: Kind| #[trigger]
            holds(calls, id, kind) ==> holds(calls.push(c), id, kind),
{
    lemma_wf_push(calls, c);
    if !c.op.releases() {
        if calls.len() <= usize::MAX {
            lemma_holds_new(calls, c);
        }
        assert forall|id: usize, kind: Kind| #[trigger] holds(calls, id, kind) implies holds(
            calls.push(c),
            id,
            kind,
        ) by {
            lemma_holds_push(calls, c, id, kind);
        }
    }
}

/// What is kept of the calls already examined while a record is examined:
/// for each of them whether its reply is released, and the context and the
/// module that the reply belongs to.
struct Ledger {
    gone: Vec<bool>,
    contexts: Vec<Option<usize>>,
    modules: Vec<Option<usize>>,
}

/// Whether `ledger` tells the truth of the calls `calls`.
spec fn marks(ledger: Ledger, calls: Seq<CallView>) -> bool {
    &&& ledger.gone.len() == calls.len()
    &&& ledger.contexts.len() == calls.len()
    &&& ledger.modules.len() == calls.len()
    &&& forall|j: int|
        0 <= j < calls.len() ==> #[trigger] ledger.gone[j] == released(calls, j as usize)
    &&& forall|j: int|
        0 <= j < calls.len() ==> #[trigger] ledger.contexts[j] == context_of(calls, j as usize)
    &&& forall|j: int|
        0 <= j < calls.len() ==> #[trigger] ledger.modules[j] == module_of(calls, j as usize)
}

/// Whether `text` can be passed as a C string.
pub fn is_c_text(text: &str) -> (b: bool)
    ensures
        b == c_text(text@),
{
    let bytes = text.as_bytes();
    let mut i: usize = 0;
    while i < bytes.len()
        invariant
            i <= bytes.len(),
            bytes@ == encode_utf8(text@),
            forall|k: int| 0 <= k < i ==> #[trigger] encode_utf8(text@)[k] != 0u8,
        decreases bytes.len() - i,
    {
        if bytes[i] == 0 {
            return false;
        }
        i = i + 1;
    }
    true
}

/// A record of calls into the backend, in the order in which they are to be made.
#[derive(Debug)]
pub struct Trace {
    calls: Vec<Call>,
}

impl View for Trace {
    type V = Seq<CallView>;

    closed spec fn view(&self) -> Seq<CallView> {
        self.calls.deep_view()
    }
}

impl Trace {
    /// The record without calls.
    pub fn new() -> (t: Trace)
        ensures
            t@ == Seq::<CallView>::empty(),
    {
        let t = Trace { calls: Vec::new() };
        assert(t@ =~= Seq::<CallView>::empty());
        t
    }

    /// The number of calls.
    pub fn len(&self) -> (n: usize)
        ensures
            n == self@.len(),
    {
        self.calls.len()
    }

    /// The call at position `i`.
    pub fn call(&self, i: usize) -> (c: &Call)
        requires
            i < self@.len(),
        ensures
            c@ == self@[i as int],
    {
        &self.calls[i]
    }

    /// Whether `id` stands for an object of kind `kind` that is still there
    /// after the first `i` calls, of which `ledger` tells the truth.
    fn live(&self, ledger: &Ledger, i: usize, id: usize, kind: Kind) -> (b: bool)
        requires
            i <= self@.len(),
            marks(*ledger, self@.take(i as int)),
        ensures
            b == holds(self@.take(i as int), id, kind),
    {
        if id >= i {
            return false;
        }
        proof {
            lemma_owner_bound(self@.take(i as int), id);
        }
        assert(self@.take(i as int)[id as int] == self.calls[id as int]@);
        if self.calls[id].op.reply() != kind || ledger.gone[id] {
            return false;
        }
        let context_gone = match ledger.contexts[id] {
            Some(c) => ledger.gone[c],
            None => false,
        };
        let module_gone = match ledger.modules[id] {
            Some(m) => ledger.gone[m],
            None => false,
        };
        !context_gone && !module_gone
    }

    /// Whether each of `ids` stands for an object of kind `kind` that is
    /// still there after the first `i` calls, of which `ledger` tells the truth.
    fn all_live(&self, ledger: &Ledger, i: usize, ids: &Vec<usize>, kind: Kind) -> (b: bool)
        requires
            i <= self@.len(),
            marks(*ledger, self@.take(i as int)),
        ensures
            b == all_hold(self@.take(i as int), ids@, kind),
    {
        let mut k: usize = 0;
        while k < ids.len()
            invariant
                k <= ids.len(),
                i <= self@.len(),
                marks(*ledger, self@.take(i as int)),
                forall|m: int| 0 <= m < k ==> holds(self@.take(i as int), #[trigger] ids@[m], kind),
            decreases ids.len() - k,
        {
            if !self.live(ledger, i, ids[k], kind) {
                return false;
            }
            k = k + 1;
        }
        true
    }

    /// Whether the call at position `i` may follow the calls before it, of
    /// which `ledger` tells the truth.
    fn admits(&self, ledger: &Ledger, i: usize) -> (b: bool)
        requires
            i < self@.len(),
            marks(*ledger, self@.take(i as int)),
        ensures
            b == admissible(self@[i as int], self@.take(i as int)),
    {
        let c = &self.calls[i];
        assert(c@ == self@[i as int]);
        let ghost before = self@.take(i as int);
        let kinds = c.op.operands();
        if c.args.len() != kinds.len() {
            return false;
        }
        let mut k: usize = 0;
        while k < c.args.len()
            invariant
                k <= c.args.len(),
                c.args.len() == kinds.len(),
                kinds@ == c.op.takes(),
                c@ == self@[i as int],
                i < self@.len(),
                before == self@.take(i as int),
                marks(*ledger, before),
                forall|m: int| 0 <= m < k ==> holds(before, #[trigger] c.args@[m], kinds@[m]),
            decreases c.args.len() - k,
        {
            if !self.live(ledger, i, c.args[k], kinds[k]) {
                assert(!holds(before, c@.args[k as int], c@.op.takes()[k as int]));
                return false;
            }
            k = k + 1;
        }
        match c.op.list_kind() {
            Some(kind) => {
                if c.list.len() > 0xffff_ffff || !self.all_live(ledger, i, &c.list, kind) {
                    return false;
                }
            },
            None => {
                if c.list.len() != 0 {
                    return false;
                }
            },
        }
        if c.op == Op::AddIncoming {
            if c.blocks.len() != c.list.len() || !self.all_live(
                ledger,
                i,
                &c.blocks,
                Kind::Block,
            ) {
                return false;
            }
        } else if c.blocks.len() != 0 {
            return false;
        }
        if !is_c_text(c.text.as_str()) {
            return false;
        }
        if c.op.is_narrow() && c.number > 0xffff_ffff {
            return false;
        }
        true
    }

    /// Whether the record is fit to be run: whether every call may follow the
    /// calls before it.
    pub fn well_formed(&self) -> (ok: bool)
        ensures
            ok == wf(self@),
    {
        let n = self.calls.len();
        let mut ledger = Ledger { gone: Vec::new(), contexts: Vec::new(), modules: Vec::new() };
        let mut i: usize = 0;
        assert(self@.take(0) =~= Seq::<CallView>::empty());
        while i < n
            invariant
                i <= n,
                n == self@.len(),
                wf(self@.take(i as int)),
                marks(ledger, self@.take(i as int)),
            decreases n - i,
        {
            let ghost before = self@.take(i as int);
            let ghost c = self@[i as int];
            let ghost after = self@.take(i + 1);
            if !self.admits(&ledger, i) {
                return false;
            }
            proof {
                assert(after =~= before.push(c));
                lemma_wf_push(before, c);
                lemma_wf_not_released_ahead(before, i);
            }
            let ghost was = ledger;
            let call = &self.calls[i];
            assert(call@ == c);
            assert(call.args@.len() == call.op.takes().len());
            if call.args.len() > 0 {
                assert(holds(before, call.args@[0], call.op.takes()[0]));
            }
            let context = if call.op == Op::ContextCreate {
                Some(i)
            } else if call.args.len() > 0 {
                ledger.contexts[call.args[0]]
            } else {
                None
            };
            let module = if call.op.reply() == Kind::Module {
                Some(i)
            } else if call.args.len() > 0 {
                ledger.modules[call.args[0]]
            } else {
                None
            };
            ledger.contexts.push(context);
            ledger.modules.push(module);
            ledger.gone.push(false);
            if call.op.is_release() {
                ledger.gone.set(call.args[0], true);
            }
            proof {
                assert forall|j: int| 0 <= j < after.len() implies #[trigger] ledger.gone[j]
                    == released(after, j as usize) by {
                    lemma_released_push(before, c, j as usize);
                    if j < i {
                        assert(was.gone[j] == released(before, j as usize));
                    }
                }
                assert forall|j: int| 0 <= j < after.len() implies #[trigger] ledger.contexts[j]
                    == context_of(after, j as usize) by {
                    if j < i {
                        assert forall|k: int| 0 <= k <= j implies before[k] == after[k] by {}
                        lemma_owner_agree(before, after, j as usize);
                        assert(was.contexts[j] == context_of(before, j as usize));
                    } else {
                        assert(after[j] == c);
                        if c.args.len() > 0 {
                            let first = c.args[0];
                            assert forall|k: int| 0 <= k <= first implies before[k]
                                == after[k] by {}
                            lemma_owner_agree(before, after, first);
                            assert(was.contexts[first as int] == context_of(before, first));
                        }
                    }
                }
                assert forall|j: int| 0 <= j < after.len() implies #[trigger] ledger.modules[j]
                    == module_of(after, j as usize) by {
                    if j < i {
                        assert forall|k: int| 0 <= k <= j implies before[k] == after[k] by {}
                        lemma_owner_agree(before, after, j as usize);
                        assert(was.modules[j] == module_of(before, j as usize));
                    } else {
                        assert(after[j] == c);
                        if c.args.len() > 0 {
                            let first = c.args[0];
                            assert forall|k: int| 0 <= k <= first implies before[k]
                                == after[k] by {}
                            lemma_owner_agree(before, after, first);
                            assert(was.modules[first as int] == module_of(before, first));
                        }
                    }
                }
            }
            i = i + 1;
        }
        assert(self@.take(n as int) =~= self@);
        true
    }

    /// Adds `call` at the end, and gives its position.
    pub(crate) fn record(&mut self, call: Call) -> (id: usize)
        ensures
            final(self)@ == old(self)@.push(call@),
            id == old(self)@.len(),
    {
        let id = self.calls.len();
        self.calls.push(call);
        assert(self@ =~= old(self)@.push(call@));
        id
    }
}

} // verus!
