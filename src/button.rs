//! The push-button watcher: it waits for a rising edge, reports a press,
//! waits for a falling edge, reports a release, and so on.
use vstd::prelude::*;

verus! {

/// A transition of the button input.
#[derive(Clone, Copy, Debug, PartialEq, Eq, Structural)]
pub enum Edge {
    Rising,
    Falling,
}

/// What the watcher reports.
#[derive(Clone, Copy, Debug, PartialEq, Eq, Structural)]
pub enum Press {
    Pressed,
    Released,
}

/// The edge awaited after `e` has been seen.
pub open spec fn other_edge(e: Edge) -> Edge {
    match e {
        Edge::Rising => Edge::Falling,
        Edge::Falling => Edge::Rising,
    }
}

/// The report for an awaited edge.
pub open spec fn press_of(e: Edge) -> Press {
    match e {
        Edge::Rising => Press::Pressed,
        Edge::Falling => Press::Released,
    }
}

/// The edge a new watcher awaits after the edges `es`, in order.
pub open spec fn awaited_after(es: Seq<Edge>) -> Edge
    decreases es.len(),
{
    if es.len() == 0 {
        Edge::Rising
    } else {
        let a = awaited_after(es.drop_last());
        if es.last() == a {
            other_edge(a)
        } else {
            a
        }
    }
}

/// What a new watcher reports for the edges `es`, in order.
pub open spec fn reports_after(es: Seq<Edge>) -> Seq<Press>
    decreases es.len(),
{
    if es.len() == 0 {
        Seq::empty()
    } else {
        let a = awaited_after(es.drop_last());
        let r = reports_after(es.drop_last());
        if es.last() == a {
            r.push(press_of(a))
        } else {
            r
        }
    }
}

/// Watches one button.
pub struct ButtonWatcher {
    awaiting: Edge,
}

impl ButtonWatcher {
    pub closed spec fn view_awaiting(&self) -> Edge {
        self.awaiting
    }

    /// A watcher waiting for the first press.
    pub fn new() -> (r: ButtonWatcher)
        ensures
            r.view_awaiting() == Edge::Rising,
    {
        ButtonWatcher { awaiting: Edge::Rising }
    }

    /// The edge to wait for next.
    pub fn awaited(&self) -> (r: Edge)
        ensures
            r == self.view_awaiting(),
    {
        self.awaiting
    }

    /// Takes an observed edge. The awaited edge gives its report and the
    /// watcher then awaits the other edge; any other edge is ignored.
    pub fn on_edge(&mut self, e: Edge) -> (r: Option<Press>)
        ensures
            e == old(self).view_awaiting() ==> r == Some(press_of(e)) && final(self).view_awaiting()
                == other_edge(e),
            e != old(self).view_awaiting() ==> r == None::<Press> && final(self).view_awaiting()
                == old(self).view_awaiting(),
    {
        if e == self.awaiting {
            self.awaiting = match e {
                Edge::Rising => Edge::Falling,
                Edge::Falling => Edge::Rising,
            };
            Some(
                match e {
                    Edge::Rising => Press::Pressed,
                    Edge::Falling => Press::Released,
                },
            )
        } else {
            None
        }
    }
}

/// Presses and releases alternate, starting with a press, whatever edges
/// arrive: each press is followed by exactly one release before the next
/// press. After an even number of reports a press is awaited, after an odd
/// number a release.
pub proof fn lemma_presses_alternate(es: Seq<Edge>)
    ensures
        forall|i: int| 0 <= i < reports_after(es).len() ==> #[trigger] reports_after(es)[i] == (if i
            % 2 == 0 {
            Press::Pressed
        } else {
            Press::Released
        }),
        awaited_after(es) == (if reports_after(es).len() % 2 == 0 {
            Edge::Rising
        } else {
            Edge::Falling
        }),
    decreases es.len(),
{
    if es.len() > 0 {
        lemma_presses_alternate(es.drop_last());
    }
}

} // verus!
