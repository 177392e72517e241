use vstd::prelude::*;
use crate::model::{CompiledInstruction, InnerInstruction, InnerInstructions, StatusMeta};

verus! {

/// The compiled invocations of one trace, in order; others are left out.
pub open spec fn compiled_of(items: Seq<InnerInstruction>) -> Seq<CompiledInstruction>
    decreases items.len(),
{
    if items.len() == 0 {
        Seq::empty()
    } else {
        let prev = compiled_of(items.drop_last());
        match items.last() {
            InnerInstruction::Compiled(ci) => prev.push(ci),
            InnerInstruction::Parsed => prev,
        }
    }
}

/// The compiled invocations of all traces, trace after trace.
pub open spec fn flatten_traces(groups: Seq<InnerInstructions>) -> Seq<CompiledInstruction>
    decreases groups.len(),
{
    if groups.len() == 0 {
        Seq::empty()
    } else {
        flatten_traces(groups.drop_last()) + compiled_of(groups.last().instructions@)
    }
}

/// The top-level instructions followed by every compiled inner invocation.
pub open spec fn all_instructions(
    top: Seq<CompiledInstruction>,
    meta: StatusMeta,
) -> Seq<CompiledInstruction> {
    match meta.inner_instructions {
        Some(groups) => top + flatten_traces(groups@),
        None => top,
    }
}

fn compiled_instructions(items: Vec<InnerInstruction>) -> (r: Vec<CompiledInstruction>)
    ensures
        r@ == compiled_of(items@),
{
    let ghost all = items@;
    let n = items.len();
    let mut rest = items;
    let mut out: Vec<CompiledInstruction> = Vec::new();
    let mut i: usize = 0;
    while i < n
        invariant
            n == all.len(),
            i <= n,
            rest@ == all.subrange(i as int, n as int),
            out@ == compiled_of(all.subrange(0, i as int)),
        decreases n - i,
    {
        let item = rest.remove(0);
        assert(all.subrange(0, i + 1).drop_last() =~= all.subrange(0, i as int));
        match item {
            InnerInstruction::Compiled(ci) => out.push(ci),
            InnerInstruction::Parsed => {},
        }
        assert(rest@ =~= all.subrange(i + 1, n as int));
        i = i + 1;
    }
    assert(all.subrange(0, n as int) =~= all);
    out
}

/// Every invocation of a transaction: the top-level instructions in their order, then the
/// compiled invocations of the inner-instruction traces, trace after trace.
pub fn instructions(
    instruction: Vec<CompiledInstruction>,
    meta: StatusMeta,
) -> (r: Vec<CompiledInstruction>)
    ensures
        r@ == all_instructions(instruction@, meta),
{
    let ghost top = instruction@;
    let mut out = instruction;
    match meta.inner_instructions {
        Some(groups) => {
            let ghost all = groups@;
            let n = groups.len();
            let mut rest = groups;
            let mut i: usize = 0;
            while i < n
                invariant
                    n == all.len(),
                    i <= n,
                    rest@ == all.subrange(i as int, n as int),
                    out@ == top + flatten_traces(all.subrange(0, i as int)),
                decreases n - i,
            {
                let group = rest.remove(0);
                assert(all.subrange(0, i + 1).drop_last() =~= all.subrange(0, i as int));
                let mut inner = compiled_instructions(group.instructions);
                out.append(&mut inner);
                assert(out@ =~= top + flatten_traces(all.subrange(0, i + 1)));
                assert(rest@ =~= all.subrange(i + 1, n as int));
                i = i + 1;
            }
            assert(all.subrange(0, n as int) =~= all);
        },
        None => {},
    }
    out
}

} // verus!
