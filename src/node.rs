use vstd::prelude::*;

verus! {

/// A processing unit that takes an `In` and produces an `Out`.
///
/// A node is described by two relations over its state: `accepts` says on
/// which inputs it may run, and `yields` says which state and output one
/// run may leave behind. A node that keeps state (a counter, a cache) may
/// answer the same input differently from one run to the next.
pub trait GraphNode<In, Out>: Sized {
    /// Whether the node, in its present state, may run on `input`.
    spec fn accepts(&self, input: In) -> bool;

    /// Whether one run on `input` may leave the node as `next` and produce `output`.
    spec fn yields(&self, input: In, next: Self, output: Out) -> bool;

    /// Executes the processing logic for this node.
    fn run(&mut self, input: In) -> (output: Out)
        requires
            old(self).accepts(input),
        ensures
            old(self).yields(input, *final(self), output),
    ;
}

/// Sequential composition, offered on every node.
///
/// A chain of stages is built by piping each stage onto the chain so far; a
/// stage that fans out is a tuple of nodes (`a.pipe(b).pipe((c, d)).pipe(e)`).
pub trait Pipe<In, Out>: GraphNode<In, Out> {
    /// Chains this node with `next`: the output of `self` becomes the input of `next`.
    fn pipe<Next: GraphNode<Out, NextOut>, NextOut>(self, next: Next) -> (g: Graph<
        In,
        Out,
        NextOut,
        Self,
        Next,
    >)
        ensures
            g.src == self,
            g.sink == next,
    ;
}

impl<In, Out, T: GraphNode<In, Out>> Pipe<In, Out> for T {
    fn pipe<Next: GraphNode<Out, NextOut>, NextOut>(self, next: Next) -> (g: Graph<
        In,
        Out,
        NextOut,
        Self,
        Next,
    >) {
        Graph::new(self, next)
    }
}

/// Any callable value is a node: one run returns what the call returns.
///
/// A closure may change what it captured, so nothing is said of the state a
/// run leaves it in.
impl<In, Out, F: FnMut(In) -> Out> GraphNode<In, Out> for F {
    open spec fn accepts(&self, input: In) -> bool {
        call_requires(*self, (input,))
    }

    open spec fn yields(&self, input: In, next: F, output: Out) -> bool {
        call_ensures(*self, (input,), output)
    }

    fn run(&mut self, input: In) -> (output: Out) {
        self(input)
    }
}

/// A composite node that runs `src` and then hands its output to `sink`.
pub struct Graph<In, Mid, Out, T, U> where T: GraphNode<In, Mid>, U: GraphNode<Mid, Out> {
    pub src: T,
    pub sink: U,
    /// Carries the input, middle and output types; holds no data.
    pub marker: core::marker::PhantomData<(In, Mid, Out)>,
}

impl<In, Mid, Out, T, U> Graph<In, Mid, Out, T, U> where
    T: GraphNode<In, Mid>,
    U: GraphNode<Mid, Out>,
 {
    /// Joins `src` and `sink` into one node.
    pub fn new(src: T, sink: U) -> (g: Self)
        ensures
            g.src == src,
            g.sink == sink,
    {
        Self { sink, src, marker: core::marker::PhantomData }
    }
}

impl<In, Mid, Out, T, U> GraphNode<In, Out> for Graph<In, Mid, Out, T, U> where
    T: GraphNode<In, Mid>,
    U: GraphNode<Mid, Out>,
 {
    /// The source accepts the input, and the sink accepts whatever the
    /// source may produce from it.
    open spec fn accepts(&self, input: In) -> bool {
        &&& self.src.accepts(input)
        &&& forall|s: T, mid: Mid| #[trigger]
            self.src.yields(input, s, mid) ==> self.sink.accepts(mid)
    }

    /// The source produces some `mid` from the input, and the sink produces
    /// the output from `mid`.
    open spec fn yields(&self, input: In, next: Self, output: Out) -> bool {
        exists|mid: Mid|
            #![trigger self.src.yields(input, next.src, mid)]
            #![trigger self.sink.yields(mid, next.sink, output)]
            self.src.yields(input, next.src, mid) && self.sink.yields(mid, next.sink, output)
    }

    fn run(&mut self, input: In) -> (output: Out) {
        let ghost before = *self;
        let mid = self.src.run(input);
        let ghost m = mid;
        let output = self.sink.run(mid);
        assert(before.src.yields(input, self.src, m) && before.sink.yields(m, self.sink, output));
        output
    }
}

} // verus!
