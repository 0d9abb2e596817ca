//! Properties that hold across the library's operations.
use vstd::prelude::*;
use crate::bag::{Bag, crafted, inserted, kind_order, repeat, same_items, took};
use crate::explorer_core::{ExplorerCore, PlanetReply, planet_reply_step};
use crate::game::{GameCommandEffect, GameState, UiCommand, command_outcome};
use crate::explorer_messages::explorer_step;
use crate::explorer_state::{ExplorerState, OrchMsgKind, PlanetMsgKind, orch_match, planet_match};
use crate::orchestrator::{Orchestrator, cleared, edges_upto, name_of, row_edges};
use crate::orchestrator_rules::{ExplorerEvent, OrchAction, PlanetEvent, planet_death, planet_step};
use crate::registry::{Status, status_of};
use crate::resources::{BasicKind, ComplexKind, ResourceKind};
use crate::topology::{is_matrix_of, linked, lists, matrix_view, square, symmetric};

verus! {

/// Links are bidirectional: whichever of two rows lists the other, the
/// matrix built from an adjacency list links them both ways.
pub proof fn law_topology_is_symmetric(m: Seq<Seq<bool>>, adj: Seq<Seq<u32>>)
    requires
        is_matrix_of(m, adj),
    ensures
        symmetric(m),
{
    assert forall|i: int, j: int| 0 <= i < m.len() && 0 <= j < m.len() implies #[trigger] m[i][j] == m[j][i] by {
        assert(m[i][j] == crate::topology::linked(adj, i, j));
        assert(m[j][i] == crate::topology::linked(adj, j, i));
    }
}

/// A link may be written in one direction or in both: where row `i`
/// already lists `j`, also listing `i` in row `j` gives the same matrix.
pub proof fn law_link_direction_does_not_matter(
    m1: Seq<Seq<bool>>,
    m2: Seq<Seq<bool>>,
    adj: Seq<Seq<u32>>,
    i: int,
    j: int,
)
    requires
        0 <= i < adj.len(),
        0 <= j < adj.len(),
        i <= u32::MAX,
        lists(adj[i], j),
        is_matrix_of(m1, adj),
        is_matrix_of(m2, adj.update(j, adj[j].push(i as u32))),
    ensures
        m1 == m2,
{
    let adj2 = adj.update(j, adj[j].push(i as u32));
    assert forall|r: int, c: int| 0 <= r < adj.len() && 0 <= c < adj.len() implies linked(adj2, r, c) == linked(
        adj,
        r,
        c,
    ) by {
        assert forall|k: int| #[trigger] lists(adj2[j], k) == (lists(adj[j], k) || k == i) by {
            if lists(adj[j], k) {
                let p = choose|p: int| 0 <= p < adj[j].len() && #[trigger] adj[j][p] == k;
                assert(adj2[j][p] == k);
            }
            if k == i {
                assert(adj2[j][adj[j].len() as int] == k);
            }
            if lists(adj2[j], k) {
                let p = choose|p: int| 0 <= p < adj2[j].len() && #[trigger] adj2[j][p] == k;
                if p < adj[j].len() {
                    assert(adj[j][p] == k);
                }
            }
        }
        if r != j {
            assert(adj2[r] == adj[r]);
        }
        if c != j {
            assert(adj2[c] == adj[c]);
        }
    }
    assert forall|r: int| 0 <= r < m1.len() implies #[trigger] m1[r] =~= m2[r] by {
        assert forall|c: int| 0 <= c < m1.len() implies #[trigger] m1[r][c] == m2[r][c] by {
            assert(m1[r][c] == linked(adj, r, c));
            assert(m2[r][c] == linked(adj2, r, c));
        }
    }
    assert(m1 =~= m2);
}

/// Destroying a planet's links keeps the matrix square and symmetric.
pub proof fn law_destroy_keeps_symmetry(m: Seq<Seq<bool>>, pos: int)
    requires
        square(m),
        symmetric(m),
    ensures
        square(cleared(m, pos)),
        symmetric(cleared(m, pos)),
{
    let c = cleared(m, pos);
    assert forall|i: int| 0 <= i < c.len() implies #[trigger] c[i].len() == c.len() by {
        assert(m[i].len() == m.len());
    }
    assert forall|i: int, j: int| 0 <= i < c.len() && 0 <= j < c.len() implies #[trigger] c[i][j] == c[j][i] by {
        assert(m[i].len() == m.len());
        assert(m[j].len() == m.len());
        assert(m[i][j] == m[j][i]);
    }
}

/// After its links are destroyed a planet has no neighbour, and every other
/// pair of planets stays linked as it was.
pub proof fn law_destroy_isolates_only_the_dead_planet(m: Seq<Seq<bool>>, pos: int)
    requires
        square(m),
        0 <= pos < m.len(),
    ensures
        forall|k: int| 0 <= k < m.len() ==> !#[trigger] cleared(m, pos)[pos][k] && !cleared(m, pos)[k][pos],
        forall|i: int, j: int|
            0 <= i < m.len() && 0 <= j < m.len() && i != pos && j != pos ==> #[trigger] cleared(m, pos)[i][j]
                == m[i][j],
{
    assert forall|k: int| 0 <= k < m.len() implies !#[trigger] cleared(m, pos)[pos][k] && !cleared(m, pos)[k][pos] by {
        assert(m[pos].len() == m.len());
        assert(m[k].len() == m.len());
    }
    assert forall|i: int, j: int|
        0 <= i < m.len() && 0 <= j < m.len() && i != pos && j != pos implies #[trigger] cleared(m, pos)[i][j]
            == m[i][j] by {
        assert(m[i].len() == m.len());
    }
}

/// Destroying the same planet's links twice does no more than once.
pub proof fn law_destroy_is_idempotent(m: Seq<Seq<bool>>, pos: int)
    ensures
        cleared(cleared(m, pos), pos) == cleared(m, pos),
{
    let c = cleared(m, pos);
    assert forall|i: int| 0 <= i < c.len() implies #[trigger] cleared(c, pos)[i] =~= c[i] by {}
    assert(cleared(c, pos) =~= c);
}

/// What goes into a bag comes out of it: taking an item of the kind just
/// put in gives that item back and leaves the bag as it was.
pub proof fn law_bag_insert_then_take<T>(b0: Bag<T>, b1: Bag<T>, b2: Bag<T>, k: ResourceKind, x: T, r: Option<T>)
    requires
        inserted(b0, b1, k, x),
        took(b1, b2, k, r),
    ensures
        r == Some(x),
        same_items(b2, b0),
{
    assert(b1.stack(k).len() > 0);
    assert(b2.stack(k) =~= b0.stack(k));
    assert forall|j: ResourceKind| #[trigger] b2.stack(j) == b0.stack(j) by {
        if j != k {
            assert(b1.stack(j) == b0.stack(j));
        }
    }
}

/// The number of times a kind occurs in a list of kinds.
pub open spec fn occurrences(s: Seq<ResourceKind>, k: ResourceKind) -> nat
    decreases s.len(),
{
    if s.len() == 0 {
        0
    } else {
        occurrences(s.drop_last(), k) + if s.last() == k {
            1nat
        } else {
            0nat
        }
    }
}

proof fn lemma_occurrences_concat(a: Seq<ResourceKind>, b: Seq<ResourceKind>, k: ResourceKind)
    ensures
        occurrences(a + b, k) == occurrences(a, k) + occurrences(b, k),
    decreases b.len(),
{
    if b.len() == 0 {
        assert(a + b =~= a);
    } else {
        assert((a + b).drop_last() =~= a + b.drop_last());
        lemma_occurrences_concat(a, b.drop_last(), k);
    }
}

proof fn lemma_occurrences_repeat(j: ResourceKind, n: nat, k: ResourceKind)
    ensures
        occurrences(repeat(j, n), k) == if j == k {
            n
        } else {
            0
        },
    decreases n,
{
    if n > 0 {
        assert(repeat(j, n).drop_last() =~= repeat(j, (n - 1) as nat));
        lemma_occurrences_repeat(j, (n - 1) as nat, k);
    }
}

proof fn lemma_listing_upto_counts<T>(b: Bag<T>, n: nat, k: ResourceKind)
    requires
        n <= 10,
    ensures
        occurrences(b.listing_upto(n), k) == if kind_order().take(n as int).contains(k) {
            b.amount(k)
        } else {
            0
        },
    decreases n,
{
    if n > 0 {
        let j = kind_order()[n - 1];
        lemma_listing_upto_counts(b, (n - 1) as nat, k);
        lemma_occurrences_concat(b.listing_upto((n - 1) as nat), repeat(j, b.amount(j)), k);
        lemma_occurrences_repeat(j, b.amount(j), k);
        let t = kind_order().take(n as int);
        let t0 = kind_order().take(n - 1);
        assert(t =~= t0.push(j));
        assert(t.contains(k) == (t0.contains(k) || j == k)) by {
            if t0.contains(k) {
                let q = choose|q: int| 0 <= q < t0.len() && t0[q] == k;
                assert(t[q] == k);
            }
            if j == k {
                assert(t[n - 1] == k);
            }
            if t.contains(k) {
                let q = choose|q: int| 0 <= q < t.len() && t[q] == k;
                if q < n - 1 {
                    assert(t0[q] == k);
                }
            }
        }
        if j == k && t0.contains(k) {
            let q = choose|q: int| 0 <= q < t0.len() && t0[q] == k;
            assert(kind_order()[q] == kind_order()[n - 1]);
            assert(false);
        }
    } else {
        assert(kind_order().take(0) =~= Seq::<ResourceKind>::empty());
    }
}

/// What the orchestrator is told a bag holds lists each kind as many times
/// as the bag holds items of that kind.
pub proof fn law_bag_listing_counts<T>(b: Bag<T>, k: ResourceKind)
    ensures
        occurrences(b.listing(), k) == b.amount(k),
{
    lemma_listing_upto_counts(b, 10, k);
    assert(kind_order().take(10) =~= kind_order());
    assert(kind_order().contains(k)) by {
        match k {
            ResourceKind::Basic(crate::resources::BasicKind::Oxygen) => assert(kind_order()[0] == k),
            ResourceKind::Basic(crate::resources::BasicKind::Hydrogen) => assert(kind_order()[1] == k),
            ResourceKind::Basic(crate::resources::BasicKind::Carbon) => assert(kind_order()[2] == k),
            ResourceKind::Basic(crate::resources::BasicKind::Silicon) => assert(kind_order()[3] == k),
            ResourceKind::Complex(crate::resources::ComplexKind::Diamond) => assert(kind_order()[4] == k),
            ResourceKind::Complex(crate::resources::ComplexKind::Water) => assert(kind_order()[5] == k),
            ResourceKind::Complex(crate::resources::ComplexKind::Life) => assert(kind_order()[6] == k),
            ResourceKind::Complex(crate::resources::ComplexKind::Robot) => assert(kind_order()[7] == k),
            ResourceKind::Complex(crate::resources::ComplexKind::Dolphin) => assert(kind_order()[8] == k),
            ResourceKind::Complex(crate::resources::ComplexKind::AIPartner) => assert(kind_order()[9] == k),
        }
    }
}

/// A killed explorer answers nothing at once but another kill: every other
/// message waits in its buffer.
pub proof fn law_killed_explorer_answers_only_kills(o: OrchMsgKind, p: PlanetMsgKind)
    ensures
        orch_match(ExplorerState::Killed, o) <==> o == OrchMsgKind::KillExplorer,
        !planet_match(ExplorerState::Killed, p),
{
}

/// Death is final for a planet: whatever a planet or an explorer reports,
/// and whichever planet's kill is recorded, a planet the orchestrator knows
/// as dead stays dead.
pub proof fn law_dead_planet_stays_dead(
    pre: Orchestrator,
    post: Orchestrator,
    planet_msg: PlanetEvent,
    explorer_msg: ExplorerEvent,
    actions: Seq<crate::orchestrator_rules::OrchAction>,
    outcome: Result<(), crate::orchestrator::OrchError>,
    killed: u32,
    id: u32,
)
    requires
        status_of(pre.planets_info.view(), id) == Some(Status::Dead),
        planet_step(&pre, &post, planet_msg, actions, outcome) || explorer_step(
            &pre,
            &post,
            explorer_msg,
            actions,
            outcome,
        ) || planet_death(&pre, &post, killed, Seq::empty(), Seq::empty(), actions, outcome),
    ensures
        status_of(post.planets_info.view(), id) == Some(Status::Dead),
{
}

/// Death is final for an explorer: whatever a planet or an explorer reports,
/// and whichever planet's kill is recorded, an explorer the orchestrator knows
/// as dead stays dead.
pub proof fn law_dead_explorer_stays_dead(
    pre: Orchestrator,
    post: Orchestrator,
    planet_msg: PlanetEvent,
    explorer_msg: ExplorerEvent,
    actions: Seq<crate::orchestrator_rules::OrchAction>,
    outcome: Result<(), crate::orchestrator::OrchError>,
    killed: u32,
    id: u32,
)
    requires
        pre.explorers_info.view().contains_key(id),
        pre.explorers_info.view()[id].status == Status::Dead,
        planet_step(&pre, &post, planet_msg, actions, outcome) || explorer_step(
            &pre,
            &post,
            explorer_msg,
            actions,
            outcome,
        ) || planet_death(&pre, &post, killed, Seq::empty(), Seq::empty(), actions, outcome),
    ensures
        post.explorers_info.view().contains_key(id),
        post.explorers_info.view()[id].status == Status::Dead,
{
}

/// The GUI's events only accumulate: whatever a planet or an explorer
/// reports, and whichever planet's kill is recorded, the events shown before
/// are still there, in order, at the front.
pub proof fn law_gui_events_only_grow(
    pre: Orchestrator,
    post: Orchestrator,
    planet_msg: PlanetEvent,
    explorer_msg: ExplorerEvent,
    actions: Seq<crate::orchestrator_rules::OrchAction>,
    outcome: Result<(), crate::orchestrator::OrchError>,
    killed: u32,
)
    requires
        planet_step(&pre, &post, planet_msg, actions, outcome) || explorer_step(
            &pre,
            &post,
            explorer_msg,
            actions,
            outcome,
        ) || planet_death(&pre, &post, killed, Seq::empty(), Seq::empty(), actions, outcome),
    ensures
        pre.gui_messages@.len() <= post.gui_messages@.len(),
        post.gui_messages@.take(pre.gui_messages@.len() as int) == pre.gui_messages@,
{
    let g = pre.gui_messages@;
    assert forall|extra: Seq<crate::orchestrator::OrchestratorEvent>| #[trigger] (g + extra).take(g.len() as int)
        == g by {
        assert((g + extra).take(g.len() as int) =~= g);
    }
    assert forall|x: crate::orchestrator::OrchestratorEvent| #[trigger] g.push(x).take(g.len() as int) == g by {
        assert(g.push(x).take(g.len() as int) =~= g);
    }
    assert(g.take(g.len() as int) =~= g);
}

/// Links are never made during the game: whatever a planet or an explorer
/// reports, and whichever planet's kill is recorded, two rows linked
/// afterwards were linked before.
pub proof fn law_links_only_disappear(
    pre: Orchestrator,
    post: Orchestrator,
    planet_msg: PlanetEvent,
    explorer_msg: ExplorerEvent,
    actions: Seq<crate::orchestrator_rules::OrchAction>,
    outcome: Result<(), crate::orchestrator::OrchError>,
    killed: u32,
    i: int,
    j: int,
)
    requires
        planet_step(&pre, &post, planet_msg, actions, outcome) || explorer_step(
            &pre,
            &post,
            explorer_msg,
            actions,
            outcome,
        ) || planet_death(&pre, &post, killed, Seq::empty(), Seq::empty(), actions, outcome),
        0 <= i < matrix_view(post.galaxy_topology@).len(),
        0 <= j < matrix_view(post.galaxy_topology@)[i].len(),
        matrix_view(post.galaxy_topology@)[i][j],
    ensures
        matrix_view(pre.galaxy_topology@).len() == matrix_view(post.galaxy_topology@).len(),
        matrix_view(pre.galaxy_topology@)[i][j],
{
}


/// An explorer travels only along a link: where the orchestrator lets an
/// explorer start a move (it asks the destination to let it in, or records
/// the destination), both planets are in the lookup table, the matrix links
/// their rows, and both are running. Where the planets are not linked, the
/// explorer's record is left alone and no planet is asked to let it in.
pub proof fn law_travel_follows_links(
    pre: Orchestrator,
    post: Orchestrator,
    explorer_id: u32,
    current_planet_id: u32,
    dst_planet_id: u32,
    actions: Seq<OrchAction>,
    outcome: Result<(), crate::orchestrator::OrchError>,
)
    requires
        explorer_step(
            &pre,
            &post,
            ExplorerEvent::TravelToPlanetRequest { explorer_id, current_planet_id, dst_planet_id },
            actions,
            outcome,
        ),
    ensures
        ({
            let lk = pre.galaxy_lookup@;
            let t = pre.galaxy_topology@;
            let linked = lk.contains_key(current_planet_id) && lk.contains_key(dst_planet_id) && lk[current_planet_id].0
                < t.len() && lk[dst_planet_id].0 < t[lk[current_planet_id].0 as int]@.len()
                && t[lk[current_planet_id].0 as int]@[lk[dst_planet_id].0 as int];
            let started = (exists|k: int| 0 <= k < actions.len() && #[trigger] actions[k] is IncomingExplorer)
                || post.explorers_info.view() != pre.explorers_info.view();
            &&& started ==> linked
            &&& started ==> status_of(pre.planets_info.view(), dst_planet_id) == Some(Status::Running)
            &&& started ==> status_of(pre.planets_info.view(), current_planet_id) == Some(Status::Running)
            &&& !linked ==> post.explorers_info.view() == pre.explorers_info.view()
            &&& !linked ==> forall|k: int| 0 <= k < actions.len() ==> !(#[trigger] actions[k] is IncomingExplorer)
        }),
{
}

/// A refused combination loses nothing: the planet hands both ingredients
/// back and each goes on top of its kind's stack, so every kind holds as
/// many items as before plus the ones handed back of that kind. A made
/// resource goes on top of its stack and nothing else changes.
pub proof fn law_combination_keeps_every_item<T>(
    pre: ExplorerCore<T>,
    post: ExplorerCore<T>,
    response: Result<(ComplexKind, T), ((ResourceKind, T), (ResourceKind, T))>,
    r: crate::explorer_core::Reaction<T>,
)
    requires
        pre.state is CombiningResources,
        planet_reply_step(pre, post, PlanetReply::CombineResourceResponse { complex_response: response }, r, None),
    ensures
        response matches Err(((k1, x1), (k2, x2))) ==> {
            &&& forall|j: ResourceKind| #[trigger] post.bag.stack(j).len() == pre.bag.stack(j).len() + (if j == k1 {
                1int
            } else {
                0int
            }) + (if j == k2 {
                1int
            } else {
                0int
            })
            &&& post.bag.stack(k2).last() == x2
            &&& post.bag.stack(k1).contains(x1)
        },
        response matches Ok((k, x)) ==> {
            &&& post.bag.stack(ResourceKind::Complex(k)).last() == x
            &&& forall|j: ResourceKind| #[trigger] post.bag.stack(j).len() == pre.bag.stack(j).len() + (if j
                == ResourceKind::Complex(k) {
                1int
            } else {
                0int
            })
        },
{
    match response {
        Err(((k1, x1), (k2, x2))) => {
            if k1 == k2 {
                assert(post.bag.stack(k1)[post.bag.stack(k1).len() - 2] == x1);
            } else {
                assert(post.bag.stack(k1).last() == x1);
            }
        },
        Ok(_) => {},
    }
}

/// The recipes: a diamond takes two carbons, water a hydrogen and an
/// oxygen, life a water and a carbon, a robot a silicon and a life, a
/// dolphin a water and a life, an AI partner a robot and a diamond.
pub proof fn law_recipes<T>(b: Bag<T>)
    ensures
        b.craftable(ComplexKind::Diamond) <==> b.stack(ResourceKind::Basic(BasicKind::Carbon)).len() >= 2,
        b.craftable(ComplexKind::Water) <==> b.stack(ResourceKind::Basic(BasicKind::Hydrogen)).len() >= 1 && b.stack(
            ResourceKind::Basic(BasicKind::Oxygen),
        ).len() >= 1,
        b.craftable(ComplexKind::Life) <==> b.stack(ResourceKind::Complex(ComplexKind::Water)).len() >= 1 && b.stack(
            ResourceKind::Basic(BasicKind::Carbon),
        ).len() >= 1,
        b.craftable(ComplexKind::Robot) <==> b.stack(ResourceKind::Basic(BasicKind::Silicon)).len() >= 1 && b.stack(
            ResourceKind::Complex(ComplexKind::Life),
        ).len() >= 1,
        b.craftable(ComplexKind::Dolphin) <==> b.stack(ResourceKind::Complex(ComplexKind::Water)).len() >= 1
            && b.stack(ResourceKind::Complex(ComplexKind::Life)).len() >= 1,
        b.craftable(ComplexKind::AIPartner) <==> b.stack(ResourceKind::Complex(ComplexKind::Robot)).len() >= 1
            && b.stack(ResourceKind::Complex(ComplexKind::Diamond)).len() >= 1,
{
}

/// Crafting hands over the recipe's ingredients, the last one put in of
/// each kind, and takes exactly them out of the bag.
pub proof fn law_crafting_takes_the_ingredients<T>(pre: Bag<T>, post: Bag<T>, k: ComplexKind, a: T, b: T)
    requires
        crafted(pre, post, k, a, b),
    ensures
        k == ComplexKind::Robot ==> {
            let si = ResourceKind::Basic(BasicKind::Silicon);
            let li = ResourceKind::Complex(ComplexKind::Life);
            &&& a == pre.stack(si).last() && b == pre.stack(li).last()
            &&& post.stack(si) == pre.stack(si).drop_last() && post.stack(li) == pre.stack(li).drop_last()
        },
        k == ComplexKind::Diamond ==> {
            let c = ResourceKind::Basic(BasicKind::Carbon);
            let s = pre.stack(c);
            &&& a == s[s.len() - 1] && b == s[s.len() - 2]
            &&& post.stack(c) == s.take(s.len() - 2)
        },
        k == ComplexKind::Water ==> {
            let h = ResourceKind::Basic(BasicKind::Hydrogen);
            let o = ResourceKind::Basic(BasicKind::Oxygen);
            &&& a == pre.stack(h).last() && b == pre.stack(o).last()
            &&& post.stack(h) == pre.stack(h).drop_last() && post.stack(o) == pre.stack(o).drop_last()
        },
        k == ComplexKind::Life ==> {
            let w = ResourceKind::Complex(ComplexKind::Water);
            let c = ResourceKind::Basic(BasicKind::Carbon);
            &&& a == pre.stack(w).last() && b == pre.stack(c).last()
            &&& post.stack(w) == pre.stack(w).drop_last() && post.stack(c) == pre.stack(c).drop_last()
        },
        k == ComplexKind::Dolphin ==> {
            let w = ResourceKind::Complex(ComplexKind::Water);
            let li = ResourceKind::Complex(ComplexKind::Life);
            &&& a == pre.stack(w).last() && b == pre.stack(li).last()
            &&& post.stack(w) == pre.stack(w).drop_last() && post.stack(li) == pre.stack(li).drop_last()
        },
        k == ComplexKind::AIPartner ==> {
            let ro = ResourceKind::Complex(ComplexKind::Robot);
            let d = ResourceKind::Complex(ComplexKind::Diamond);
            &&& a == pre.stack(ro).last() && b == pre.stack(d).last()
            &&& post.stack(ro) == pre.stack(ro).drop_last() && post.stack(d) == pre.stack(d).drop_last()
        },
        forall|j: ResourceKind|
            (match j {
                ResourceKind::Basic(_) => k == ComplexKind::Diamond || k == ComplexKind::Water || k == ComplexKind::Life
                    || k == ComplexKind::Robot,
                ResourceKind::Complex(c) => c == ComplexKind::Water || c == ComplexKind::Life || c == ComplexKind::Robot
                    || c == ComplexKind::Diamond,
            }) || #[trigger] post.stack(j) == pre.stack(j),
{
}

/// The number of set entries `(i, j)` with `i < j < upto` in row `i`.
pub open spec fn links_in_row(m: Seq<Seq<bool>>, i: int, upto: int) -> nat
    decreases upto - i,
{
    if upto <= i + 1 {
        0
    } else {
        links_in_row(m, i, upto - 1) + if m[i][upto - 1] {
            1nat
        } else {
            0nat
        }
    }
}

/// The number of set entries above the diagonal in the first `k` rows.
pub open spec fn links_upto(m: Seq<Seq<bool>>, k: int) -> nat
    decreases k,
{
    if k <= 0 {
        0
    } else {
        links_upto(m, k - 1) + links_in_row(m, k - 1, m.len() as int)
    }
}

proof fn lemma_row_links(m: Seq<Seq<bool>>, rev: Map<u32, u32>, i: int, upto: int)
    requires
        0 <= i,
    ensures
        row_edges(m, rev, i, upto).len() == links_in_row(m, i, upto),
        forall|j: int| #![trigger m[i][j]] i < j < upto && m[i][j] ==> row_edges(m, rev, i, upto).contains(
            (name_of(rev, i), name_of(rev, j)),
        ),
    decreases upto - i,
{
    if upto > i + 1 {
        lemma_row_links(m, rev, i, upto - 1);
        assert forall|j: int| #![trigger m[i][j]] i < j < upto && m[i][j] implies row_edges(m, rev, i, upto).contains(
            (name_of(rev, i), name_of(rev, j)),
        ) by {
            if j < upto - 1 {
                let q = choose|q: int| #![trigger row_edges(m, rev, i, upto - 1)[q]] 0 <= q < row_edges(m, rev, i, upto - 1).len()
                    && row_edges(m, rev, i, upto - 1)[q] == (name_of(rev, i), name_of(rev, j));
                assert(row_edges(m, rev, i, upto)[q] == row_edges(m, rev, i, upto - 1)[q]);
            } else {
                assert(row_edges(m, rev, i, upto)[row_edges(m, rev, i, upto - 1).len() as int] == (
                    name_of(rev, i),
                    name_of(rev, j),
                ));
            }
        }
    }
}

proof fn lemma_all_links(m: Seq<Seq<bool>>, rev: Map<u32, u32>, k: int)
    ensures
        edges_upto(m, rev, k).len() == links_upto(m, k),
        forall|i: int, j: int| #![trigger m[i][j]] 0 <= i < k && i < j < m.len() && m[i][j] ==> edges_upto(
            m,
            rev,
            k,
        ).contains((name_of(rev, i), name_of(rev, j))),
    decreases k,
{
    if k > 0 {
        lemma_all_links(m, rev, k - 1);
        lemma_row_links(m, rev, k - 1, m.len() as int);
        assert(edges_upto(m, rev, k) == edges_upto(m, rev, k - 1) + row_edges(m, rev, k - 1, m.len() as int));
        assert forall|i: int, j: int| #![trigger m[i][j]] 0 <= i < k && i < j < m.len() && m[i][j] implies edges_upto(
            m,
            rev,
            k,
        ).contains((name_of(rev, i), name_of(rev, j))) by {
            if i < k - 1 {
                let q = choose|q: int| #![trigger edges_upto(m, rev, k - 1)[q]] 0 <= q < edges_upto(m, rev, k - 1).len()
                    && edges_upto(m, rev, k - 1)[q] == (name_of(rev, i), name_of(rev, j));
                assert(edges_upto(m, rev, k)[q] == edges_upto(m, rev, k - 1)[q]);
            } else {
                let q = choose|q: int| #![trigger row_edges(m, rev, k - 1, m.len() as int)[q]] 0 <= q < row_edges(
                    m,
                    rev,
                    k - 1,
                    m.len() as int,
                ).len() && row_edges(m, rev, k - 1, m.len() as int)[q] == (name_of(rev, i), name_of(rev, j));
                assert(edges_upto(m, rev, k)[edges_upto(m, rev, k - 1).len() + q] == row_edges(
                    m,
                    rev,
                    k - 1,
                    m.len() as int,
                )[q]);
            }
        }
    }
}

/// The GUI's topology snapshot lists every link once: each set entry above
/// the diagonal gives the pair of its rows' planet ids, and there are as
/// many pairs as set entries above the diagonal.
pub proof fn law_topology_snapshot_lists_every_link(m: Seq<Seq<bool>>, rev: Map<u32, u32>, edges: Seq<(u32, u32)>)
    requires
        edges == edges_upto(m, rev, m.len() as int),
    ensures
        forall|i: int, j: int| #![trigger m[i][j]] 0 <= i < j < m.len() && m[i][j] ==> edges.contains(
            (name_of(rev, i), name_of(rev, j)),
        ),
        edges.len() == links_upto(m, m.len() as int),
{
    lemma_all_links(m, rev, m.len() as int);
}

/// The end command ends the game whatever state it is in, and leaves the
/// state as it is; no other command ends it.
pub proof fn law_end_command_always_ends(state: GameState, cmd: UiCommand)
    ensures
        command_outcome(state, UiCommand::EndGame) == (state, GameCommandEffect::EndGame),
        cmd != UiCommand::EndGame ==> command_outcome(state, cmd).1 != GameCommandEffect::EndGame,
        command_outcome(state, UiCommand::StartGame).0 == GameState::Running,
        state == GameState::Running ==> command_outcome(state, UiCommand::StopGame).0 == GameState::Paused,
        state != GameState::Running ==> command_outcome(state, UiCommand::StopGame).0 == state,
{
}

} // verus!
