//! The entity store: an arena of entities identified by stable integer
//! indices, with one table per component type. An entity has a component
//! exactly when its row in that component's table is occupied.

use vstd::prelude::*;
use crate::components::{
    Colour, ObstacleShape, Position, RectangleShape, Score, Velocity,
};

verus! {

/// A stable identity for one spawned entity.
#[derive(Clone, Copy, Debug, PartialEq, Eq, Structural)]
pub struct EntityId {
    pub index: usize,
}

/// How many of the first `n` entries of a marker column are set.
pub open spec fn marked_count(markers: Seq<bool>, n: int) -> int
    decreases n,
{
    if n <= 0 {
        0
    } else {
        marked_count(markers, n - 1) + if markers[n - 1] { 1int } else { 0int }
    }
}

/// A count is never negative.
pub proof fn lemma_marked_count_nonnegative(markers: Seq<bool>, n: int)
    ensures
        marked_count(markers, n) >= 0,
    decreases n,
{
    if n > 0 {
        lemma_marked_count_nonnegative(markers, n - 1);
    }
}

/// Counting over a longer prefix never counts less.
pub proof fn lemma_marked_count_monotonic(markers: Seq<bool>, m: int, n: int)
    requires
        m <= n,
    ensures
        marked_count(markers, m) <= marked_count(markers, n),
    decreases n - m,
{
    if m < n {
        lemma_marked_count_monotonic(markers, m, n - 1);
    }
}

/// A set entry below `n` contributes: the count over `n` is at least one.
pub proof fn lemma_marked_count_at_least_one(markers: Seq<bool>, i: int, n: int)
    requires
        0 <= i < n,
        markers[i],
    ensures
        marked_count(markers, n) >= 1,
{
    lemma_marked_count_nonnegative(markers, i);
    lemma_marked_count_monotonic(markers, i + 1, n);
}

/// Two distinct set entries below `n` make the count over `n` at least two.
pub proof fn lemma_marked_count_at_least_two(markers: Seq<bool>, i: int, j: int, n: int)
    requires
        0 <= i < j < n,
        markers[i],
        markers[j],
    ensures
        marked_count(markers, n) >= 2,
{
    lemma_marked_count_at_least_one(markers, i, j);
    lemma_marked_count_monotonic(markers, j + 1, n);
}

/// When the whole column counts exactly one, the set entry is unique.
pub proof fn lemma_marked_count_unique(markers: Seq<bool>, i: int, j: int, n: int)
    requires
        0 <= i < n,
        0 <= j < n,
        markers[i],
        markers[j],
        marked_count(markers, n) == 1,
    ensures
        i == j,
{
    if i < j {
        lemma_marked_count_at_least_two(markers, i, j, n);
    } else if j < i {
        lemma_marked_count_at_least_two(markers, j, i, n);
    }
}

/// Two stores with the same player column and entity count locate the same
/// unique player.
pub proof fn lemma_same_flipper_index(a: EntityStore, b: EntityStore)
    requires
        a.flipper_markers@ == b.flipper_markers@,
        a.positions@.len() == b.positions@.len(),
        marked_count(a.flipper_markers@, a.entity_count()) == 1,
        a.is_flipper(a.flipper_index()),
    ensures
        b.is_flipper(b.flipper_index()),
        b.flipper_index() == a.flipper_index(),
{
    assert(exists|i: int| b.is_flipper(i)) by {
        assert(b.is_flipper(a.flipper_index()));
    }
    assert(b.is_flipper(b.flipper_index()));
    lemma_marked_count_unique(
        b.flipper_markers@,
        b.flipper_index(),
        a.flipper_index(),
        b.entity_count(),
    );
}

/// Two stores with the same finish line column and entity count locate the
/// same unique finish line.
pub proof fn lemma_same_finish_line_index(a: EntityStore, b: EntityStore)
    requires
        a.finish_line_markers@ == b.finish_line_markers@,
        a.positions@.len() == b.positions@.len(),
        marked_count(a.finish_line_markers@, a.entity_count()) == 1,
        a.is_finish_line(a.finish_line_index()),
    ensures
        b.is_finish_line(b.finish_line_index()),
        b.finish_line_index() == a.finish_line_index(),
{
    assert(exists|i: int| b.is_finish_line(i)) by {
        assert(b.is_finish_line(a.finish_line_index()));
    }
    assert(b.is_finish_line(b.finish_line_index()));
    lemma_marked_count_unique(
        b.finish_line_markers@,
        b.finish_line_index(),
        a.finish_line_index(),
        b.entity_count(),
    );
}

/// The components one spawn call attaches to a fresh entity.
pub struct ComponentBundle {
    pub position: Option<Position>,
    pub velocity: Option<Velocity>,
    pub rectangle_shape: Option<RectangleShape>,
    pub obstacle_shape: Option<ObstacleShape>,
    pub colour: Option<Colour>,
    pub score: Option<Score>,
    pub flipper: bool,
    pub finish_line: bool,
}

/// Component tables, all of the same length; row `i` holds the components of
/// the entity with index `i`.
pub struct EntityStore {
    pub positions: Vec<Option<Position>>,
    pub velocities: Vec<Option<Velocity>>,
    pub rectangle_shapes: Vec<Option<RectangleShape>>,
    pub obstacle_shapes: Vec<Option<ObstacleShape>>,
    pub colours: Vec<Option<Colour>>,
    pub scores: Vec<Option<Score>>,
    pub flipper_markers: Vec<bool>,
    pub finish_line_markers: Vec<bool>,
}

impl EntityStore {
    /// How many entities have been spawned.
    pub open spec fn entity_count(self) -> int {
        self.positions@.len() as int
    }

    /// Every table covers every entity.
    pub open spec fn tables_consistent(self) -> bool {
        &&& self.velocities@.len() == self.entity_count()
        &&& self.rectangle_shapes@.len() == self.entity_count()
        &&& self.obstacle_shapes@.len() == self.entity_count()
        &&& self.colours@.len() == self.entity_count()
        &&& self.scores@.len() == self.entity_count()
        &&& self.flipper_markers@.len() == self.entity_count()
        &&& self.finish_line_markers@.len() == self.entity_count()
    }

    pub open spec fn valid_index(self, i: int) -> bool {
        0 <= i < self.entity_count()
    }

    /// The entity at `i` is the player.
    pub open spec fn is_flipper(self, i: int) -> bool {
        self.valid_index(i) && self.flipper_markers@[i]
    }

    /// The entity at `i` is the finish line.
    pub open spec fn is_finish_line(self, i: int) -> bool {
        self.valid_index(i) && self.finish_line_markers@[i]
    }

    /// The entity at `i` is an obstacle: it has an obstacle shape.
    pub open spec fn is_obstacle(self, i: int) -> bool {
        self.valid_index(i) && self.obstacle_shapes@[i] is Some
    }

    /// The index of the player entity, meaningful when exactly one exists.
    pub open spec fn flipper_index(self) -> int {
        choose|i: int| self.is_flipper(i)
    }

    /// The index of the finish line entity, meaningful when exactly one
    /// exists.
    pub open spec fn finish_line_index(self) -> int {
        choose|i: int| self.is_finish_line(i)
    }

    /// An empty store.
    pub fn new() -> (store: EntityStore)
        ensures
            store.entity_count() == 0,
            store.tables_consistent(),
    {
        EntityStore {
            positions: Vec::new(),
            velocities: Vec::new(),
            rectangle_shapes: Vec::new(),
            obstacle_shapes: Vec::new(),
            colours: Vec::new(),
            scores: Vec::new(),
            flipper_markers: Vec::new(),
            finish_line_markers: Vec::new(),
        }
    }

    /// Spawn one entity carrying the bundle's components; its identity is the
    /// next free index.
    pub fn spawn(&mut self, bundle: ComponentBundle) -> (id: EntityId)
        requires
            old(self).tables_consistent(),
            old(self).entity_count() < usize::MAX,
        ensures
            final(self).tables_consistent(),
            id.index == old(self).entity_count(),
            final(self).entity_count() == old(self).entity_count() + 1,
            final(self).positions@ == old(self).positions@.push(bundle.position),
            final(self).velocities@ == old(self).velocities@.push(bundle.velocity),
            final(self).rectangle_shapes@ == old(self).rectangle_shapes@.push(
                bundle.rectangle_shape,
            ),
            final(self).obstacle_shapes@ == old(self).obstacle_shapes@.push(
                bundle.obstacle_shape,
            ),
            final(self).colours@ == old(self).colours@.push(bundle.colour),
            final(self).scores@ == old(self).scores@.push(bundle.score),
            final(self).flipper_markers@ == old(self).flipper_markers@.push(bundle.flipper),
            final(self).finish_line_markers@ == old(self).finish_line_markers@.push(
                bundle.finish_line,
            ),
    {
        let id = EntityId { index: self.positions.len() };
        self.positions.push(bundle.position);
        self.velocities.push(bundle.velocity);
        self.rectangle_shapes.push(bundle.rectangle_shape);
        self.obstacle_shapes.push(bundle.obstacle_shape);
        self.colours.push(bundle.colour);
        self.scores.push(bundle.score);
        self.flipper_markers.push(bundle.flipper);
        self.finish_line_markers.push(bundle.finish_line);
        id
    }
}

/// Failure of a query that must match exactly one entity; under the data
/// model this signals a setup error and should abort startup.
#[derive(Clone, Copy, Debug, PartialEq, Eq, Structural)]
pub enum QueryError {
    /// No entity matched.
    NoMatch,
    /// More than one entity matched.
    MultipleMatches,
}

impl QueryError {
    /// A short description of the failure.
    pub fn describe(&self) -> (text: &'static str)
    {
        match self {
            QueryError::NoMatch => "query matched no entity",
            QueryError::MultipleMatches => "query matched more than one entity",
        }
    }
}

impl EntityStore {
    /// The identity of the single player entity, or which way the
    /// exactly-one expectation failed.
    pub fn query_single_flipper(&self) -> (r: Result<EntityId, QueryError>)
        requires
            self.tables_consistent(),
        ensures
            match r {
                Ok(id) => {
                    &&& self.is_flipper(id.index as int)
                    &&& marked_count(self.flipper_markers@, self.entity_count()) == 1
                    &&& id.index as int == self.flipper_index()
                },
                Err(QueryError::NoMatch) => forall|i: int| !self.is_flipper(i),
                Err(QueryError::MultipleMatches) => marked_count(
                    self.flipper_markers@,
                    self.entity_count(),
                ) >= 2,
            },
    {
        let ghost markers = self.flipper_markers@;
        let mut found: Option<EntityId> = None;
        let mut i: usize = 0;
        while i < self.flipper_markers.len()
            invariant
                self.tables_consistent(),
                markers == self.flipper_markers@,
                0 <= i <= self.entity_count(),
                match found {
                    None => marked_count(markers, i as int) == 0,
                    Some(id) => {
                        &&& self.is_flipper(id.index as int)
                        &&& id.index < i
                        &&& marked_count(markers, i as int) == 1
                    },
                },
            decreases self.entity_count() - i,
        {
            if self.flipper_markers[i] {
                match found {
                    None => {
                        found = Some(EntityId { index: i });
                    },
                    Some(_) => {
                        proof {
                            lemma_marked_count_monotonic(
                                markers,
                                i + 1,
                                self.entity_count(),
                            );
                        }
                        return Err(QueryError::MultipleMatches);
                    },
                }
            }
            i = i + 1;
        }
        match found {
            None => {
                proof {
                    assert forall|j: int| !self.is_flipper(j) by {
                        if self.valid_index(j) && markers[j] {
                            lemma_marked_count_at_least_one(
                                markers,
                                j,
                                self.entity_count(),
                            );
                        }
                    }
                }
                Err(QueryError::NoMatch)
            },
            Some(id) => {
                proof {
                    lemma_marked_count_unique(
                        markers,
                        id.index as int,
                        self.flipper_index(),
                        self.entity_count(),
                    );
                }
                Ok(id)
            },
        }
    }
}

} // verus!
