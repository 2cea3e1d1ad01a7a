use vstd::prelude::*;

verus! {

/// The corner rows around the lattice cells of the plane that are being
/// worked on.
///
/// Four rows of gradient indices live in a fixed pool. The four corner names
/// (top or bottom along the slow axis, left or right along the fast axis)
/// each point at one row of the pool. Advancing to the next cell exchanges
/// the names of the top and the bottom edge; no row is copied.
pub struct PerlinContainer2D {
    vecs: [[u8; 32]; 4],
    names: Names2D,
}

/// Pool position of each corner name of the plane's window.
#[derive(Clone, Copy)]
struct Names2D {
    tl: usize,
    tr: usize,
    bl: usize,
    br: usize,
}

impl PerlinContainer2D {
    /// The names point at the pool in one of the two ways that exchanging
    /// the edges can produce.
    #[verifier::type_invariant]
    pub closed spec fn wf(&self) -> bool {
        let names = self.names;
        ||| (names.tl == 0 && names.tr == 1 && names.bl == 2 && names.br == 3)
        ||| (names.tl == 2 && names.tr == 3 && names.bl == 0 && names.br == 1)
    }

    /// The rows of the pool, by position.
    pub closed spec fn pool(&self) -> Seq<Seq<u8>> {
        Seq::new(4, |p: int| self.vecs[p]@)
    }

    /// The pool position of each name, in the order top left, top right,
    /// bottom left, bottom right.
    pub closed spec fn slots(&self) -> Seq<int> {
        seq![
            self.names.tl as int,
            self.names.tr as int,
            self.names.bl as int,
            self.names.br as int,
        ]
    }

    /// The top left row.
    pub open spec fn spec_tl(&self) -> Seq<u8> {
        self.pool()[self.slots()[0]]
    }

    /// The top right row.
    pub open spec fn spec_tr(&self) -> Seq<u8> {
        self.pool()[self.slots()[1]]
    }

    /// The bottom left row.
    pub open spec fn spec_bl(&self) -> Seq<u8> {
        self.pool()[self.slots()[2]]
    }

    /// The bottom right row.
    pub open spec fn spec_br(&self) -> Seq<u8> {
        self.pool()[self.slots()[3]]
    }

    /// The names always stand for four different rows of the pool, and every
    /// row of the pool has a name.
    pub proof fn lemma_slots_are_a_bijection(&self)
        requires
            self.wf(),
        ensures
            self.slots().len() == 4,
            self.pool().len() == 4,
            forall|a: int| 0 <= a < 4 ==> 0 <= #[trigger] self.slots()[a] < 4,
            forall|a: int, b: int|
                0 <= a < 4 && 0 <= b < 4 && a != b ==> self.slots()[a] != self.slots()[b],
            forall|p: int|
                #![trigger self.pool()[p]]
                0 <= p < 4 ==> exists|a: int| 0 <= a < 4 && #[trigger] self.slots()[a] == p,
            self.slots()[0] < self.slots()[1],
            self.slots()[2] < self.slots()[3],
    {
        if self.names.tl == 0 {
            assert(self.slots()[0] == 0 && self.slots()[1] == 1 && self.slots()[2] == 2
                && self.slots()[3] == 3);
        } else {
            assert(self.slots()[2] == 0 && self.slots()[3] == 1 && self.slots()[0] == 2
                && self.slots()[1] == 3);
        }
    }

    /// A window whose rows are all zero, with the names in pool order.
    pub fn new_uninit() -> (window: PerlinContainer2D)
        ensures
            window.wf(),
            window.slots() == seq![0int, 1, 2, 3],
            forall|p: int, k: int| 0 <= p < 4 && 0 <= k < 32 ==> window.pool()[p][k] == 0,
    {
        PerlinContainer2D { vecs: [[0u8; 32]; 4], names: Names2D { tl: 0, tr: 1, bl: 2, br: 3 } }
    }

    /// The top left row.
    pub fn tl(&self) -> (row: &[u8; 32])
        ensures
            row@ == self.spec_tl(),
    {
        proof {
            use_type_invariant(self);
        }
        &self.vecs[self.names.tl]
    }

    /// The top right row.
    pub fn tr(&self) -> (row: &[u8; 32])
        ensures
            row@ == self.spec_tr(),
    {
        proof {
            use_type_invariant(self);
        }
        &self.vecs[self.names.tr]
    }

    /// The bottom left row.
    pub fn bl(&self) -> (row: &[u8; 32])
        ensures
            row@ == self.spec_bl(),
    {
        proof {
            use_type_invariant(self);
        }
        &self.vecs[self.names.bl]
    }

    /// The bottom right row.
    pub fn br(&self) -> (row: &[u8; 32])
        ensures
            row@ == self.spec_br(),
    {
        proof {
            use_type_invariant(self);
        }
        &self.vecs[self.names.br]
    }

    /// Both rows of the top edge, for writing. The bottom edge and the
    /// names stay as they are.
    pub fn tl_tr_mut(&mut self) -> (rows: (&mut [u8; 32], &mut [u8; 32]))
        ensures
            rows.0@ == old(self).spec_tl(),
            rows.1@ == old(self).spec_tr(),
            final(self).wf(),
            final(self).slots() == old(self).slots(),
            final(self).spec_tl() == final(rows.0)@,
            final(self).spec_tr() == final(rows.1)@,
            final(self).spec_bl() == old(self).spec_bl(),
            final(self).spec_br() == old(self).spec_br(),
    {
        proof {
            use_type_invariant(&*self);
        }
        let left: usize = self.names.tl;
        let right: usize = self.names.tr;
        let (head, tail) = self.vecs.split_at_mut(right);
        (&mut head[left], &mut tail[0])
    }

    /// Both rows of the bottom edge, for writing. The top edge and the
    /// names stay as they are.
    pub fn bl_br_mut(&mut self) -> (rows: (&mut [u8; 32], &mut [u8; 32]))
        ensures
            rows.0@ == old(self).spec_bl(),
            rows.1@ == old(self).spec_br(),
            final(self).wf(),
            final(self).slots() == old(self).slots(),
            final(self).spec_bl() == final(rows.0)@,
            final(self).spec_br() == final(rows.1)@,
            final(self).spec_tl() == old(self).spec_tl(),
            final(self).spec_tr() == old(self).spec_tr(),
    {
        proof {
            use_type_invariant(&*self);
        }
        let left: usize = self.names.bl;
        let right: usize = self.names.br;
        let (head, tail) = self.vecs.split_at_mut(right);
        (&mut head[left], &mut tail[0])
    }

    /// Exchanges the names of the top and the bottom edge. The pool is not
    /// touched.
    pub fn swap_top_bottom(&mut self)
        ensures
            final(self).wf(),
            final(self).pool() == old(self).pool(),
            final(self).slots() == seq![
                old(self).slots()[2],
                old(self).slots()[3],
                old(self).slots()[0],
                old(self).slots()[1],
            ],
            final(self).spec_tl() == old(self).spec_bl(),
            final(self).spec_tr() == old(self).spec_br(),
            final(self).spec_bl() == old(self).spec_tl(),
            final(self).spec_br() == old(self).spec_tr(),
    {
        proof {
            use_type_invariant(&*self);
        }
        let names: Names2D = self.names;
        self.names = Names2D { tl: names.bl, tr: names.br, bl: names.tl, br: names.tr };
    }
}

/// The corner rows around the lattice cells of space that are being worked
/// on.
///
/// Eight rows of gradient indices live in a fixed pool. The eight corner
/// names (top or bottom along the middle axis, left or right along the fast
/// axis, front or back along the slow axis) each point at one row of the
/// pool. Advancing to the next cell of the middle axis exchanges the names
/// of the top and the bottom face; no row is copied.
pub struct PerlinContainer3D {
    vecs: [[u8; 32]; 8],
    names: Names3D,
}

/// Pool position of each corner name of the spatial window.
#[derive(Clone, Copy)]
struct Names3D {
    tlf: usize,
    trf: usize,
    tlb: usize,
    trb: usize,
    blf: usize,
    brf: usize,
    blb: usize,
    brb: usize,
}

impl PerlinContainer3D {
    /// The names point at the pool in one of the two ways that exchanging
    /// the faces can produce.
    #[verifier::type_invariant]
    pub closed spec fn wf(&self) -> bool {
        let names = self.names;
        ||| (names.tlf == 0 && names.trf == 1 && names.tlb == 2 && names.trb == 3 && names.blf == 4
            && names.brf == 5 && names.blb == 6 && names.brb == 7)
        ||| (names.tlf == 4 && names.trf == 5 && names.tlb == 6 && names.trb == 7 && names.blf == 0
            && names.brf == 1 && names.blb == 2 && names.brb == 3)
    }

    /// The rows of the pool, by position.
    pub closed spec fn pool(&self) -> Seq<Seq<u8>> {
        Seq::new(8, |p: int| self.vecs[p]@)
    }

    /// The pool position of each name, in the order top left front, top
    /// right front, top left back, top right back, then the same four of
    /// the bottom face.
    pub closed spec fn slots(&self) -> Seq<int> {
        seq![
            self.names.tlf as int,
            self.names.trf as int,
            self.names.tlb as int,
            self.names.trb as int,
            self.names.blf as int,
            self.names.brf as int,
            self.names.blb as int,
            self.names.brb as int,
        ]
    }

    /// The top left front row.
    pub open spec fn spec_tlf(&self) -> Seq<u8> {
        self.pool()[self.slots()[0]]
    }

    /// The top right front row.
    pub open spec fn spec_trf(&self) -> Seq<u8> {
        self.pool()[self.slots()[1]]
    }

    /// The top left back row.
    pub open spec fn spec_tlb(&self) -> Seq<u8> {
        self.pool()[self.slots()[2]]
    }

    /// The top right back row.
    pub open spec fn spec_trb(&self) -> Seq<u8> {
        self.pool()[self.slots()[3]]
    }

    /// The bottom left front row.
    pub open spec fn spec_blf(&self) -> Seq<u8> {
        self.pool()[self.slots()[4]]
    }

    /// The bottom right front row.
    pub open spec fn spec_brf(&self) -> Seq<u8> {
        self.pool()[self.slots()[5]]
    }

    /// The bottom left back row.
    pub open spec fn spec_blb(&self) -> Seq<u8> {
        self.pool()[self.slots()[6]]
    }

    /// The bottom right back row.
    pub open spec fn spec_brb(&self) -> Seq<u8> {
        self.pool()[self.slots()[7]]
    }

    /// The names always stand for eight different rows of the pool, and
    /// every row of the pool has a name.
    pub proof fn lemma_slots_are_a_bijection(&self)
        requires
            self.wf(),
        ensures
            self.slots().len() == 8,
            self.pool().len() == 8,
            forall|a: int| 0 <= a < 8 ==> 0 <= #[trigger] self.slots()[a] < 8,
            forall|a: int, b: int|
                0 <= a < 8 && 0 <= b < 8 && a != b ==> self.slots()[a] != self.slots()[b],
            forall|p: int|
                #![trigger self.pool()[p]]
                0 <= p < 8 ==> exists|a: int| 0 <= a < 8 && #[trigger] self.slots()[a] == p,
            self.slots()[0] < self.slots()[1] < self.slots()[2] < self.slots()[3],
            self.slots()[4] < self.slots()[5] < self.slots()[6] < self.slots()[7],
    {
        let s = self.slots();
        if self.names.tlf == 0 {
            assert(s[0] == 0 && s[1] == 1 && s[2] == 2 && s[3] == 3);
            assert(s[4] == 4 && s[5] == 5 && s[6] == 6 && s[7] == 7);
        } else {
            assert(s[4] == 0 && s[5] == 1 && s[6] == 2 && s[7] == 3);
            assert(s[0] == 4 && s[1] == 5 && s[2] == 6 && s[3] == 7);
        }
    }

    /// A window whose rows are all zero, with the names in pool order.
    pub fn new_uninit() -> (window: PerlinContainer3D)
        ensures
            window.wf(),
            window.slots() == seq![0int, 1, 2, 3, 4, 5, 6, 7],
            forall|p: int, k: int| 0 <= p < 8 && 0 <= k < 32 ==> window.pool()[p][k] == 0,
    {
        PerlinContainer3D {
            vecs: [[0u8; 32]; 8],
            names: Names3D { tlf: 0, trf: 1, tlb: 2, trb: 3, blf: 4, brf: 5, blb: 6, brb: 7 },
        }
    }

    /// The top left front row.
    pub fn tlf(&self) -> (row: &[u8; 32])
        ensures
            row@ == self.spec_tlf(),
    {
        proof {
            use_type_invariant(self);
        }
        &self.vecs[self.names.tlf]
    }

    /// The top right front row.
    pub fn trf(&self) -> (row: &[u8; 32])
        ensures
            row@ == self.spec_trf(),
    {
        proof {
            use_type_invariant(self);
        }
        &self.vecs[self.names.trf]
    }

    /// The top left back row.
    pub fn tlb(&self) -> (row: &[u8; 32])
        ensures
            row@ == self.spec_tlb(),
    {
        proof {
            use_type_invariant(self);
        }
        &self.vecs[self.names.tlb]
    }

    /// The top right back row.
    pub fn trb(&self) -> (row: &[u8; 32])
        ensures
            row@ == self.spec_trb(),
    {
        proof {
            use_type_invariant(self);
        }
        &self.vecs[self.names.trb]
    }

    /// The bottom left front row.
    pub fn blf(&self) -> (row: &[u8; 32])
        ensures
            row@ == self.spec_blf(),
    {
        proof {
            use_type_invariant(self);
        }
        &self.vecs[self.names.blf]
    }

    /// The bottom right front row.
    pub fn brf(&self) -> (row: &[u8; 32])
        ensures
            row@ == self.spec_brf(),
    {
        proof {
            use_type_invariant(self);
        }
        &self.vecs[self.names.brf]
    }

    /// The bottom left back row.
    pub fn blb(&self) -> (row: &[u8; 32])
        ensures
            row@ == self.spec_blb(),
    {
        proof {
            use_type_invariant(self);
        }
        &self.vecs[self.names.blb]
    }

    /// The bottom right back row.
    pub fn brb(&self) -> (row: &[u8; 32])
        ensures
            row@ == self.spec_brb(),
    {
        proof {
            use_type_invariant(self);
        }
        &self.vecs[self.names.brb]
    }

    /// The four rows of the top face, for writing. The bottom face and the
    /// names stay as they are.
    pub fn tlf_trf_tlb_trb_mut(&mut self) -> (rows: (
        &mut [u8; 32],
        &mut [u8; 32],
        &mut [u8; 32],
        &mut [u8; 32],
    ))
        ensures
            rows.0@ == old(self).spec_tlf(),
            rows.1@ == old(self).spec_trf(),
            rows.2@ == old(self).spec_tlb(),
            rows.3@ == old(self).spec_trb(),
            final(self).wf(),
            final(self).slots() == old(self).slots(),
            final(self).spec_tlf() == final(rows.0)@,
            final(self).spec_trf() == final(rows.1)@,
            final(self).spec_tlb() == final(rows.2)@,
            final(self).spec_trb() == final(rows.3)@,
            final(self).spec_blf() == old(self).spec_blf(),
            final(self).spec_brf() == old(self).spec_brf(),
            final(self).spec_blb() == old(self).spec_blb(),
            final(self).spec_brb() == old(self).spec_brb(),
    {
        proof {
            use_type_invariant(&*self);
        }
        let first: usize = self.names.tlf;
        let (head, rest) = self.vecs.split_at_mut(first + 1);
        let (second, rest) = rest.split_at_mut(1);
        let (third, fourth) = rest.split_at_mut(1);
        (&mut head[first], &mut second[0], &mut third[0], &mut fourth[0])
    }

    /// The four rows of the bottom face, for writing. The top face and the
    /// names stay as they are.
    pub fn blf_brf_blb_brb_mut(&mut self) -> (rows: (
        &mut [u8; 32],
        &mut [u8; 32],
        &mut [u8; 32],
        &mut [u8; 32],
    ))
        ensures
            rows.0@ == old(self).spec_blf(),
            rows.1@ == old(self).spec_brf(),
            rows.2@ == old(self).spec_blb(),
            rows.3@ == old(self).spec_brb(),
            final(self).wf(),
            final(self).slots() == old(self).slots(),
            final(self).spec_blf() == final(rows.0)@,
            final(self).spec_brf() == final(rows.1)@,
            final(self).spec_blb() == final(rows.2)@,
            final(self).spec_brb() == final(rows.3)@,
            final(self).spec_tlf() == old(self).spec_tlf(),
            final(self).spec_trf() == old(self).spec_trf(),
            final(self).spec_tlb() == old(self).spec_tlb(),
            final(self).spec_trb() == old(self).spec_trb(),
    {
        proof {
            use_type_invariant(&*self);
        }
        let first: usize = self.names.blf;
        let (head, rest) = self.vecs.split_at_mut(first + 1);
        let (second, rest) = rest.split_at_mut(1);
        let (third, fourth) = rest.split_at_mut(1);
        (&mut head[first], &mut second[0], &mut third[0], &mut fourth[0])
    }

    /// Exchanges the names of the top and the bottom face. The pool is not
    /// touched.
    pub fn swap_top_bottom(&mut self)
        ensures
            final(self).wf(),
            final(self).pool() == old(self).pool(),
            final(self).slots() == seq![
                old(self).slots()[4],
                old(self).slots()[5],
                old(self).slots()[6],
                old(self).slots()[7],
                old(self).slots()[0],
                old(self).slots()[1],
                old(self).slots()[2],
                old(self).slots()[3],
            ],
            final(self).spec_tlf() == old(self).spec_blf(),
            final(self).spec_blf() == old(self).spec_tlf(),
            final(self).spec_trf() == old(self).spec_brf(),
            final(self).spec_brf() == old(self).spec_trf(),
            final(self).spec_tlb() == old(self).spec_blb(),
            final(self).spec_blb() == old(self).spec_tlb(),
            final(self).spec_trb() == old(self).spec_brb(),
            final(self).spec_brb() == old(self).spec_trb(),
    {
        proof {
            use_type_invariant(&*self);
        }
        let names: Names3D = self.names;
        self.names = Names3D {
            tlf: names.blf,
            trf: names.brf,
            tlb: names.blb,
            trb: names.brb,
            blf: names.tlf,
            brf: names.trf,
            blb: names.tlb,
            brb: names.trb,
        };
    }
}

} // verus!
