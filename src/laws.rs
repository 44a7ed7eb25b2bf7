use vstd::prelude::*;

use crate::counter::Counter;
use crate::node::{Graph, GraphNode};

verus! {

/// A callable used as a node runs exactly as the call does: it accepts the
/// inputs that the call accepts and produces what the call may return.
pub proof fn lemma_callable_node<In, Out, F: FnMut(In) -> Out>(f: F, x: In, next: F, output: Out)
    ensures
        f.accepts(x) <==> call_requires(f, (x,)),
        f.yields(x, next, output) <==> call_ensures(f, (x,), output),
{
}

/// Sequential composition is associative: `a.pipe(b).pipe(c)` and
/// `a.pipe(b.pipe(c))` accept the same inputs, and on each of them produce
/// the same outputs and leave `a`, `b` and `c` in the same states. Either way
/// `a` runs on the input, `b` on what `a` produced, and `c` on what `b` produced.
pub proof fn lemma_pipe_associative<In, M1, M2, Out, A, B, C>(
    left: Graph<In, M2, Out, Graph<In, M1, M2, A, B>, C>,
    right: Graph<In, M1, Out, A, Graph<M1, M2, Out, B, C>>,
    x: In,
    left_next: Graph<In, M2, Out, Graph<In, M1, M2, A, B>, C>,
    right_next: Graph<In, M1, Out, A, Graph<M1, M2, Out, B, C>>,
    output: Out,
) where A: GraphNode<In, M1>, B: GraphNode<M1, M2>, C: GraphNode<M2, Out>
    requires
        left.src.src == right.src,
        left.src.sink == right.sink.src,
        left.sink == right.sink.sink,
        left_next.src.src == right_next.src,
        left_next.src.sink == right_next.sink.src,
        left_next.sink == right_next.sink.sink,
    ensures
        left.accepts(x) <==> right.accepts(x),
        left.yields(x, left_next, output) <==> right.yields(x, right_next, output),
        left.yields(x, left_next, output) <==> exists|m1: M1, m2: M2|
            {
                &&& right.src.yields(x, right_next.src, m1)
                &&& right.sink.src.yields(m1, right_next.sink.src, m2)
                &&& right.sink.sink.yields(m2, right_next.sink.sink, output)
            },
{
    let a = right.src;
    let b = right.sink.src;
    let c = right.sink.sink;
    if left.accepts(x) {
        assert forall|a2: A, m1: M1| #[trigger] a.yields(x, a2, m1) implies right.sink.accepts(m1) by {
            assert(b.accepts(m1));
            assert forall|b2: B, m2: M2| #[trigger] b.yields(m1, b2, m2) implies c.accepts(m2) by {
                let ab2 = Graph { src: a2, sink: b2, ..left.src };
                assert(a.yields(x, ab2.src, m1) && b.yields(m1, ab2.sink, m2));
                assert(left.src.yields(x, ab2, m2));
            }
        }
    }
    if right.accepts(x) {
        assert forall|a2: A, m1: M1| #[trigger] a.yields(x, a2, m1) implies b.accepts(m1) by {
            assert(right.sink.accepts(m1));
        }
        assert forall|ab2: Graph<In, M1, M2, A, B>, m2: M2| #[trigger]
            left.src.yields(x, ab2, m2) implies c.accepts(m2) by {
            let m1 = choose|m1: M1| a.yields(x, ab2.src, m1) && b.yields(m1, ab2.sink, m2);
            assert(right.sink.accepts(m1));
        }
    }
    if left.yields(x, left_next, output) {
        let m2 = choose|m2: M2|
            left.src.yields(x, left_next.src, m2) && c.yields(m2, left_next.sink, output);
        let m1 = choose|m1: M1|
            a.yields(x, left_next.src.src, m1) && b.yields(m1, left_next.src.sink, m2);
        assert(right.sink.yields(m1, right_next.sink, output));
        assert(right.yields(x, right_next, output));
    }
    if right.yields(x, right_next, output) {
        let m1 = choose|m1: M1|
            a.yields(x, right_next.src, m1) && right.sink.yields(m1, right_next.sink, output);
        let m2 = choose|m2: M2|
            b.yields(m1, right_next.sink.src, m2) && c.yields(m2, right_next.sink.sink, output);
        assert(left.src.yields(x, left_next.src, m2));
        assert(left.yields(x, left_next, output));
    }
}

/// Whether each run of `n` on an input has one outcome: a single output and a
/// single state left behind.
pub open spec fn deterministic<In, Out, N: GraphNode<In, Out>>(n: N) -> bool {
    forall|x: In, s1: N, o1: Out, s2: N, o2: Out|
        #![trigger n.yields(x, s1, o1), n.yields(x, s2, o2)]
        n.yields(x, s1, o1) && n.yields(x, s2, o2) ==> s1 == s2 && o1 == o2
}

/// Runs of the two nestings of `a`, `b` and `c` on the same input, started
/// from the same states, agree when the three nodes are deterministic: the
/// outputs are equal, and each node is left in the same state either way.
pub proof fn lemma_pipe_associative_runs<In, M1, M2, Out, A, B, C>(
    left: Graph<In, M2, Out, Graph<In, M1, M2, A, B>, C>,
    right: Graph<In, M1, Out, A, Graph<M1, M2, Out, B, C>>,
    x: In,
    left_next: Graph<In, M2, Out, Graph<In, M1, M2, A, B>, C>,
    left_output: Out,
    right_next: Graph<In, M1, Out, A, Graph<M1, M2, Out, B, C>>,
    right_output: Out,
) where A: GraphNode<In, M1>, B: GraphNode<M1, M2>, C: GraphNode<M2, Out>
    requires
        left.src.src == right.src,
        left.src.sink == right.sink.src,
        left.sink == right.sink.sink,
        deterministic(right.src),
        deterministic(right.sink.src),
        deterministic(right.sink.sink),
        left.yields(x, left_next, left_output),
        right.yields(x, right_next, right_output),
    ensures
        left_output == right_output,
        left_next.src.src == right_next.src,
        left_next.src.sink == right_next.sink.src,
        left_next.sink == right_next.sink.sink,
{
    let (a, b, c) = (right.src, right.sink.src, right.sink.sink);
    let m2 = choose|m2: M2|
        left.src.yields(x, left_next.src, m2) && c.yields(m2, left_next.sink, left_output);
    let m1 = choose|m1: M1|
        a.yields(x, left_next.src.src, m1) && b.yields(m1, left_next.src.sink, m2);
    let n1 = choose|n1: M1|
        a.yields(x, right_next.src, n1) && right.sink.yields(n1, right_next.sink, right_output);
    let n2 = choose|n2: M2|
        b.yields(n1, right_next.sink.src, n2) && c.yields(n2, right_next.sink.sink, right_output);
    assert(a.yields(x, left_next.src.src, m1) && a.yields(x, right_next.src, n1));
    assert(b.yields(m1, left_next.src.sink, m2) && b.yields(n1, right_next.sink.src, n2));
    assert(c.yields(m2, left_next.sink, left_output) && c.yields(n2, right_next.sink.sink, right_output));
}

/// A chain of stages `start, a, (b, c), d`, built by piping each stage onto
/// the chain so far, runs stage by stage: `start` on the input, `a` on what
/// `start` produced, `b` and `c` on the two slots of what `a` produced, and
/// `d` on the pair of their outputs. Its output is the output of `d`, and
/// each stage is left in the state its own run left it in.
pub proof fn lemma_chain_stages<In, M, X, Y, XO, YO, Out, S, A, B, C, D>(
    chain: Graph<In, (XO, YO), Out, Graph<In, (X, Y), (XO, YO), Graph<In, M, (X, Y), S, A>, (B, C)>, D>,
    x: In,
    next: Graph<In, (XO, YO), Out, Graph<In, (X, Y), (XO, YO), Graph<In, M, (X, Y), S, A>, (B, C)>, D>,
    output: Out,
) where
    S: GraphNode<In, M>,
    A: GraphNode<M, (X, Y)>,
    B: GraphNode<X, XO>,
    C: GraphNode<Y, YO>,
    D: GraphNode<(XO, YO), Out>,
    ensures
        chain.yields(x, next, output) <==> exists|m: M, p: X, q: Y, p2: XO, q2: YO|
            {
                &&& chain.src.src.src.yields(x, next.src.src.src, m)
                &&& chain.src.src.sink.yields(m, next.src.src.sink, (p, q))
                &&& chain.src.sink.0.yields(p, next.src.sink.0, p2)
                &&& chain.src.sink.1.yields(q, next.src.sink.1, q2)
                &&& chain.sink.yields((p2, q2), next.sink, output)
            },
{
    let start = chain.src.src.src;
    let a = chain.src.src.sink;
    let group = chain.src.sink;
    let d = chain.sink;
    if chain.yields(x, next, output) {
        let r = choose|r: (XO, YO)| chain.src.yields(x, next.src, r) && d.yields(r, next.sink, output);
        let pq = choose|pq: (X, Y)|
            chain.src.src.yields(x, next.src.src, pq) && group.yields(pq, next.src.sink, r);
        let m = choose|m: M| start.yields(x, next.src.src.src, m) && a.yields(m, next.src.src.sink, pq);
        assert(pq == (pq.0, pq.1) && r == (r.0, r.1));
        assert(start.yields(x, next.src.src.src, m) && a.yields(m, next.src.src.sink, (pq.0, pq.1))
            && group.0.yields(pq.0, next.src.sink.0, r.0) && group.1.yields(pq.1, next.src.sink.1, r.1)
            && d.yields((r.0, r.1), next.sink, output));
    }
    if exists|m: M, p: X, q: Y, p2: XO, q2: YO|
        {
            &&& start.yields(x, next.src.src.src, m)
            &&& a.yields(m, next.src.src.sink, (p, q))
            &&& group.0.yields(p, next.src.sink.0, p2)
            &&& group.1.yields(q, next.src.sink.1, q2)
            &&& d.yields((p2, q2), next.sink, output)
        } {
        let (m, p, q, p2, q2) = choose|m: M, p: X, q: Y, p2: XO, q2: YO|
            {
                &&& start.yields(x, next.src.src.src, m)
                &&& a.yields(m, next.src.src.sink, (p, q))
                &&& group.0.yields(p, next.src.sink.0, p2)
                &&& group.1.yields(q, next.src.sink.1, q2)
                &&& d.yields((p2, q2), next.sink, output)
            };
        assert(chain.src.src.yields(x, next.src.src, (p, q)));
        assert(group.yields((p, q), next.src.sink, (p2, q2)));
        assert(chain.src.yields(x, next.src, (p2, q2)));
    }
}

/// Two chains of stages `start, a, (b, c), d` built from nodes in the same
/// states, run on the same input, agree when the stages are deterministic:
/// the outputs are equal, and each stage is left in the same state in both.
pub proof fn lemma_chain_runs_agree<In, M, X, Y, XO, YO, Out, S, A, B, C, D>(
    chain: Graph<In, (XO, YO), Out, Graph<In, (X, Y), (XO, YO), Graph<In, M, (X, Y), S, A>, (B, C)>, D>,
    other: Graph<In, (XO, YO), Out, Graph<In, (X, Y), (XO, YO), Graph<In, M, (X, Y), S, A>, (B, C)>, D>,
    x: In,
    next: Graph<In, (XO, YO), Out, Graph<In, (X, Y), (XO, YO), Graph<In, M, (X, Y), S, A>, (B, C)>, D>,
    output: Out,
    other_next: Graph<In, (XO, YO), Out, Graph<In, (X, Y), (XO, YO), Graph<In, M, (X, Y), S, A>, (B, C)>, D>,
    other_output: Out,
) where
    S: GraphNode<In, M>,
    A: GraphNode<M, (X, Y)>,
    B: GraphNode<X, XO>,
    C: GraphNode<Y, YO>,
    D: GraphNode<(XO, YO), Out>,
    requires
        other.src.src.src == chain.src.src.src,
        other.src.src.sink == chain.src.src.sink,
        other.src.sink == chain.src.sink,
        other.sink == chain.sink,
        deterministic(chain.src.src.src),
        deterministic(chain.src.src.sink),
        deterministic(chain.src.sink.0),
        deterministic(chain.src.sink.1),
        deterministic(chain.sink),
        chain.yields(x, next, output),
        other.yields(x, other_next, other_output),
    ensures
        output == other_output,
        next.src.src.src == other_next.src.src.src,
        next.src.src.sink == other_next.src.src.sink,
        next.src.sink == other_next.src.sink,
        next.sink == other_next.sink,
{
    lemma_chain_stages(chain, x, next, output);
    lemma_chain_stages(other, x, other_next, other_output);
    let (m, p, q, p2, q2) = choose|m: M, p: X, q: Y, p2: XO, q2: YO|
        {
            &&& chain.src.src.src.yields(x, next.src.src.src, m)
            &&& chain.src.src.sink.yields(m, next.src.src.sink, (p, q))
            &&& chain.src.sink.0.yields(p, next.src.sink.0, p2)
            &&& chain.src.sink.1.yields(q, next.src.sink.1, q2)
            &&& chain.sink.yields((p2, q2), next.sink, output)
        };
    let (om, op, oq, op2, oq2) = choose|m: M, p: X, q: Y, p2: XO, q2: YO|
        {
            &&& other.src.src.src.yields(x, other_next.src.src.src, m)
            &&& other.src.src.sink.yields(m, other_next.src.src.sink, (p, q))
            &&& other.src.sink.0.yields(p, other_next.src.sink.0, p2)
            &&& other.src.sink.1.yields(q, other_next.src.sink.1, q2)
            &&& other.sink.yields((p2, q2), other_next.sink, other_output)
        };
    let (start, a, group, d) = (chain.src.src.src, chain.src.src.sink, chain.src.sink, chain.sink);
    assert(start.yields(x, next.src.src.src, m) && start.yields(x, other_next.src.src.src, om));
    assert(a.yields(m, next.src.src.sink, (p, q)) && a.yields(m, other_next.src.src.sink, (op, oq)));
    assert(group.0.yields(p, next.src.sink.0, p2) && group.0.yields(p, other_next.src.sink.0, op2));
    assert(group.1.yields(q, next.src.sink.1, q2) && group.1.yields(q, other_next.src.sink.1, oq2));
    assert(d.yields((p2, q2), next.sink, output) && d.yields((p2, q2), other_next.sink, other_output));
    assert(next.src.sink == other_next.src.sink);
}

/// A counter at the head of a chain keeps its state across runs of the
/// chain: two runs in a row raise its count by one and then by one more, and
/// hand the sink the two successive counts.
pub proof fn lemma_counter_in_chain<Out, S: GraphNode<u64, Out>>(
    g: Graph<(), u64, Out, Counter, S>,
    g1: Graph<(), u64, Out, Counter, S>,
    g2: Graph<(), u64, Out, Counter, S>,
    o1: Out,
    o2: Out,
)
    requires
        g.yields((), g1, o1),
        g1.yields((), g2, o2),
    ensures
        g1.src.count == g.src.count + 1,
        g2.src.count == g.src.count + 2,
        g.sink.yields(g1.src.count, g1.sink, o1),
        g1.sink.yields(g2.src.count, g2.sink, o2),
{
}

} // verus!
