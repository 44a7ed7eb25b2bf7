use vstd::prelude::*;

use crate::node::GraphNode;

verus! {

// A tuple of nodes is a fan-out/fan-in node: slot `i` of the input goes to
// node `i`, and its output fills slot `i` of the result. The slots run one
// after another, from the first to the last, and each node's state changes
// only through its own slot. Tuples of one to eight nodes are nodes.

impl<InA, OutA, A> GraphNode<(InA,), (OutA,)> for (A,) where
    A: GraphNode<InA, OutA>,
{
    open spec fn accepts(&self, input: (InA,)) -> bool {
        &&& self.0.accepts(input.0)
    }

    open spec fn yields(&self, input: (InA,), next: Self, output: (OutA,)) -> bool {
        &&& self.0.yields(input.0, next.0, output.0)
    }

    fn run(&mut self, input: (InA,)) -> (output: (OutA,)) {
        let (x0,) = input;
        let y0 = self.0.run(x0);
        (y0,)
    }
}

impl<InA, OutA, InB, OutB, A, B> GraphNode<(InA, InB), (OutA, OutB)> for (A, B) where
    A: GraphNode<InA, OutA>,
    B: GraphNode<InB, OutB>,
{
    open spec fn accepts(&self, input: (InA, InB)) -> bool {
        &&& self.0.accepts(input.0)
        &&& self.1.accepts(input.1)
    }

    open spec fn yields(&self, input: (InA, InB), next: Self, output: (OutA, OutB)) -> bool {
        &&& self.0.yields(input.0, next.0, output.0)
        &&& self.1.yields(input.1, next.1, output.1)
    }

    fn run(&mut self, input: (InA, InB)) -> (output: (OutA, OutB)) {
        let (x0, x1) = input;
        let y0 = self.0.run(x0);
        let y1 = self.1.run(x1);
        (y0, y1)
    }
}

impl<InA, OutA, InB, OutB, InC, OutC, A, B, C> GraphNode<(InA, InB, InC), (OutA, OutB, OutC)> for (A, B, C) where
    A: GraphNode<InA, OutA>,
    B: GraphNode<InB, OutB>,
    C: GraphNode<InC, OutC>,
{
    open spec fn accepts(&self, input: (InA, InB, InC)) -> bool {
        &&& self.0.accepts(input.0)
        &&& self.1.accepts(input.1)
        &&& self.2.accepts(input.2)
    }

    open spec fn yields(
        &self,
        input: (InA, InB, InC),
        next: Self,
        output: (OutA, OutB, OutC),
    ) -> bool {
        &&& self.0.yields(input.0, next.0, output.0)
        &&& self.1.yields(input.1, next.1, output.1)
        &&& self.2.yields(input.2, next.2, output.2)
    }

    fn run(&mut self, input: (InA, InB, InC)) -> (output: (OutA, OutB, OutC)) {
        let (x0, x1, x2) = input;
        let y0 = self.0.run(x0);
        let y1 = self.1.run(x1);
        let y2 = self.2.run(x2);
        (y0, y1, y2)
    }
}

impl<InA, OutA, InB, OutB, InC, OutC, InD, OutD, A, B, C, D> GraphNode<(InA, InB, InC, InD), (OutA, OutB, OutC, OutD)> for (A, B, C, D) where
    A: GraphNode<InA, OutA>,
    B: GraphNode<InB, OutB>,
    C: GraphNode<InC, OutC>,
    D: GraphNode<InD, OutD>,
{
    open spec fn accepts(&self, input: (InA, InB, InC, InD)) -> bool {
        &&& self.0.accepts(input.0)
        &&& self.1.accepts(input.1)
        &&& self.2.accepts(input.2)
        &&& self.3.accepts(input.3)
    }

    open spec fn yields(
        &self,
        input: (InA, InB, InC, InD),
        next: Self,
        output: (OutA, OutB, OutC, OutD),
    ) -> bool {
        &&& self.0.yields(input.0, next.0, output.0)
        &&& self.1.yields(input.1, next.1, output.1)
        &&& self.2.yields(input.2, next.2, output.2)
        &&& self.3.yields(input.3, next.3, output.3)
    }

    fn run(&mut self, input: (InA, InB, InC, InD)) -> (output: (OutA, OutB, OutC, OutD)) {
        let (x0, x1, x2, x3) = input;
        let y0 = self.0.run(x0);
        let y1 = self.1.run(x1);
        let y2 = self.2.run(x2);
        let y3 = self.3.run(x3);
        (y0, y1, y2, y3)
    }
}

impl<InA, OutA, InB, OutB, InC, OutC, InD, OutD, InE, OutE, A, B, C, D, E> GraphNode<(InA, InB, InC, InD, InE), (OutA, OutB, OutC, OutD, OutE)> for (A, B, C, D, E) where
    A: GraphNode<InA, OutA>,
    B: GraphNode<InB, OutB>,
    C: GraphNode<InC, OutC>,
    D: GraphNode<InD, OutD>,
    E: GraphNode<InE, OutE>,
{
    open spec fn accepts(&self, input: (InA, InB, InC, InD, InE)) -> bool {
        &&& self.0.accepts(input.0)
        &&& self.1.accepts(input.1)
        &&& self.2.accepts(input.2)
        &&& self.3.accepts(input.3)
        &&& self.4.accepts(input.4)
    }

    open spec fn yields(
        &self,
        input: (InA, InB, InC, InD, InE),
        next: Self,
        output: (OutA, OutB, OutC, OutD, OutE),
    ) -> bool {
        &&& self.0.yields(input.0, next.0, output.0)
        &&& self.1.yields(input.1, next.1, output.1)
        &&& self.2.yields(input.2, next.2, output.2)
        &&& self.3.yields(input.3, next.3, output.3)
        &&& self.4.yields(input.4, next.4, output.4)
    }

    fn run(&mut self, input: (InA, InB, InC, InD, InE)) -> (output: (OutA, OutB, OutC, OutD, OutE)) {
        let (x0, x1, x2, x3, x4) = input;
        let y0 = self.0.run(x0);
        let y1 = self.1.run(x1);
        let y2 = self.2.run(x2);
        let y3 = self.3.run(x3);
        let y4 = self.4.run(x4);
        (y0, y1, y2, y3, y4)
    }
}

impl<InA, OutA, InB, OutB, InC, OutC, InD, OutD, InE, OutE, InF, OutF, A, B, C, D, E, F> GraphNode<(InA, InB, InC, InD, InE, InF), (OutA, OutB, OutC, OutD, OutE, OutF)> for (A, B, C, D, E, F) where
    A: GraphNode<InA, OutA>,
    B: GraphNode<InB, OutB>,
    C: GraphNode<InC, OutC>,
    D: GraphNode<InD, OutD>,
    E: GraphNode<InE, OutE>,
    F: GraphNode<InF, OutF>,
{
    open spec fn accepts(&self, input: (InA, InB, InC, InD, InE, InF)) -> bool {
        &&& self.0.accepts(input.0)
        &&& self.1.accepts(input.1)
        &&& self.2.accepts(input.2)
        &&& self.3.accepts(input.3)
        &&& self.4.accepts(input.4)
        &&& self.5.accepts(input.5)
    }

    open spec fn yields(
        &self,
        input: (InA, InB, InC, InD, InE, InF),
        next: Self,
        output: (OutA, OutB, OutC, OutD, OutE, OutF),
    ) -> bool {
        &&& self.0.yields(input.0, next.0, output.0)
        &&& self.1.yields(input.1, next.1, output.1)
        &&& self.2.yields(input.2, next.2, output.2)
        &&& self.3.yields(input.3, next.3, output.3)
        &&& self.4.yields(input.4, next.4, output.4)
        &&& self.5.yields(input.5, next.5, output.5)
    }

    fn run(&mut self, input: (InA, InB, InC, InD, InE, InF)) -> (output: (OutA, OutB, OutC, OutD, OutE, OutF)) {
        let (x0, x1, x2, x3, x4, x5) = input;
        let y0 = self.0.run(x0);
        let y1 = self.1.run(x1);
        let y2 = self.2.run(x2);
        let y3 = self.3.run(x3);
        let y4 = self.4.run(x4);
        let y5 = self.5.run(x5);
        (y0, y1, y2, y3, y4, y5)
    }
}

impl<InA, OutA, InB, OutB, InC, OutC, InD, OutD, InE, OutE, InF, OutF, InG, OutG, A, B, C, D, E, F, G> GraphNode<(InA, InB, InC, InD, InE, InF, InG), (OutA, OutB, OutC, OutD, OutE, OutF, OutG)> for (A, B, C, D, E, F, G) where
    A: GraphNode<InA, OutA>,
    B: GraphNode<InB, OutB>,
    C: GraphNode<InC, OutC>,
    D: GraphNode<InD, OutD>,
    E: GraphNode<InE, OutE>,
    F: GraphNode<InF, OutF>,
    G: GraphNode<InG, OutG>,
{
    open spec fn accepts(&self, input: (InA, InB, InC, InD, InE, InF, InG)) -> bool {
        &&& self.0.accepts(input.0)
        &&& self.1.accepts(input.1)
        &&& self.2.accepts(input.2)
        &&& self.3.accepts(input.3)
        &&& self.4.accepts(input.4)
        &&& self.5.accepts(input.5)
        &&& self.6.accepts(input.6)
    }

    open spec fn yields(
        &self,
        input: (InA, InB, InC, InD, InE, InF, InG),
        next: Self,
        output: (OutA, OutB, OutC, OutD, OutE, OutF, OutG),
    ) -> bool {
        &&& self.0.yields(input.0, next.0, output.0)
        &&& self.1.yields(input.1, next.1, output.1)
        &&& self.2.yields(input.2, next.2, output.2)
        &&& self.3.yields(input.3, next.3, output.3)
        &&& self.4.yields(input.4, next.4, output.4)
        &&& self.5.yields(input.5, next.5, output.5)
        &&& self.6.yields(input.6, next.6, output.6)
    }

    fn run(&mut self, input: (InA, InB, InC, InD, InE, InF, InG)) -> (output: (OutA, OutB, OutC, OutD, OutE, OutF, OutG)) {
        let (x0, x1, x2, x3, x4, x5, x6) = input;
        let y0 = self.0.run(x0);
        let y1 = self.1.run(x1);
        let y2 = self.2.run(x2);
        let y3 = self.3.run(x3);
        let y4 = self.4.run(x4);
        let y5 = self.5.run(x5);
        let y6 = self.6.run(x6);
        (y0, y1, y2, y3, y4, y5, y6)
    }
}

impl<InA, OutA, InB, OutB, InC, OutC, InD, OutD, InE, OutE, InF, OutF, InG, OutG, InH, OutH, A, B, C, D, E, F, G, H> GraphNode<(InA, InB, InC, InD, InE, InF, InG, InH), (OutA, OutB, OutC, OutD, OutE, OutF, OutG, OutH)> for (A, B, C, D, E, F, G, H) where
    A: GraphNode<InA, OutA>,
    B: GraphNode<InB, OutB>,
    C: GraphNode<InC, OutC>,
    D: GraphNode<InD, OutD>,
    E: GraphNode<InE, OutE>,
    F: GraphNode<InF, OutF>,
    G: GraphNode<InG, OutG>,
    H: GraphNode<InH, OutH>,
{
    open spec fn accepts(&self, input: (InA, InB, InC, InD, InE, InF, InG, InH)) -> bool {
        &&& self.0.accepts(input.0)
        &&& self.1.accepts(input.1)
        &&& self.2.accepts(input.2)
        &&& self.3.accepts(input.3)
        &&& self.4.accepts(input.4)
        &&& self.5.accepts(input.5)
        &&& self.6.accepts(input.6)
        &&& self.7.accepts(input.7)
    }

    open spec fn yields(
        &self,
        input: (InA, InB, InC, InD, InE, InF, InG, InH),
        next: Self,
        output: (OutA, OutB, OutC, OutD, OutE, OutF, OutG, OutH),
    ) -> bool {
        &&& self.0.yields(input.0, next.0, output.0)
        &&& self.1.yields(input.1, next.1, output.1)
        &&& self.2.yields(input.2, next.2, output.2)
        &&& self.3.yields(input.3, next.3, output.3)
        &&& self.4.yields(input.4, next.4, output.4)
        &&& self.5.yields(input.5, next.5, output.5)
        &&& self.6.yields(input.6, next.6, output.6)
        &&& self.7.yields(input.7, next.7, output.7)
    }

    fn run(&mut self, input: (InA, InB, InC, InD, InE, InF, InG, InH)) -> (output: (OutA, OutB, OutC, OutD, OutE, OutF, OutG, OutH)) {
        let (x0, x1, x2, x3, x4, x5, x6, x7) = input;
        let y0 = self.0.run(x0);
        let y1 = self.1.run(x1);
        let y2 = self.2.run(x2);
        let y3 = self.3.run(x3);
        let y4 = self.4.run(x4);
        let y5 = self.5.run(x5);
        let y6 = self.6.run(x6);
        let y7 = self.7.run(x7);
        (y0, y1, y2, y3, y4, y5, y6, y7)
    }
}

} // verus!
