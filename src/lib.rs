//! A pointer-like wrapper, [`Versioned<T>`], that counts how many times the
//! value it holds has been mutably accessed.
//!
//! Comparing two version numbers is cheap where comparing or hashing the
//! value itself is not (large collections, say): a caller notes the version
//! when it looks at the value and later checks whether it moved.
//!
//! Read access ([`Versioned::get`], `Deref`, `AsRef`) never touches the
//! counter. Every grant of mutable access ([`Versioned::get_mut`]) raises it by
//! exactly one, whether or not anything is written through the grant.

use vstd::prelude::*;

verus! {

/// Integer type used for version numbers.
pub type Version = usize;

/// Version of a newly constructed cell, unless another one is given to
/// [`Versioned::with_version`] or [`Versioned::default_with_version`].
pub const INITIAL_VERSION: Version = 0;

/// A value together with the number of mutable accesses granted to it.
#[derive(Debug)]
pub struct Versioned<T>(T, Version);

impl<T> Versioned<T> {
    /// The value held by the cell.
    pub closed spec fn value(&self) -> T {
        self.0
    }

    /// The cell's current version.
    pub closed spec fn spec_version(&self) -> Version {
        self.1
    }

    /// Constructs a cell holding `value`, at version [`INITIAL_VERSION`].
    pub fn new(value: T) -> (r: Self)
        ensures
            r.value() == value,
            r.version() == INITIAL_VERSION,
    {
        Self::with_version(value, INITIAL_VERSION)
    }

    /// Constructs a cell holding `value`, at the given version.
    pub fn with_version(value: T, version: Version) -> (r: Self)
        ensures
            r.value() == value,
            r.version() == version,
    {
        Versioned(value, version)
    }

    /// Returns the current version.
    #[verifier::when_used_as_spec(spec_version)]
    pub fn version(&self) -> (r: Version)
        ensures
            r == self.spec_version(),
    {
        self.1
    }

    /// Returns a shared reference to the value. The version is not touched.
    pub fn get(&self) -> (r: &T)
        ensures
            *r == self.value(),
    {
        &self.0
    }

    /// Returns a mutable reference to the value and raises the version by one.
    ///
    /// The access is counted when it is granted, before the caller can write
    /// through the reference or drop it, so a grant that writes nothing is
    /// counted too. A cell at the largest version cannot grant access: the
    /// counter would overflow, and a wrapped counter would make version
    /// comparisons meaningless.
    #[must_use]
    pub fn get_mut(&mut self) -> (r: &mut T)
        requires
            old(self).version() < Version::MAX,
        ensures
            *r == old(self).value(),
            Self::access_step(*old(self), *final(self)),
            final(self).value() == *final(r),
    {
        self.1 = self.1 + 1;
        &mut self.0
    }

    /// `post` is what the cell `pre` becomes through one grant of mutable
    /// access: one version higher, holding whatever was written through the
    /// grant.
    pub open spec fn access_step(pre: Self, post: Self) -> bool {
        post.version() == pre.version() + 1
    }

    /// A cell that has been granted mutable access `k` times in a row is `k`
    /// versions ahead of where it started, whatever was written through the
    /// grants.
    pub proof fn lemma_version_counts_accesses(history: Seq<Self>, k: int)
        requires
            0 <= k < history.len(),
            forall|i: int| 0 <= i < k ==> #[trigger] Self::access_step(history[i], history[i + 1]),
        ensures
            history[k].version() == history[0].version() + k,
        decreases k,
    {
        if k > 0 {
            Self::lemma_version_counts_accesses(history, k - 1);
            assert(Self::access_step(history[k - 1], history[(k - 1) + 1]));
        }
    }
}

impl<T: Default> Versioned<T> {
    /// Constructs a cell holding `T`'s default value, at the given version.
    pub fn default_with_version(version: Version) -> (r: Self)
        ensures
            call_ensures(T::default, (), r.value()),
            r.version() == version,
    {
        Self::with_version(T::default(), version)
    }
}

impl<T: Default> Default for Versioned<T> {
    /// Constructs a cell holding `T`'s default value, at version
    /// [`INITIAL_VERSION`].
    fn default() -> (r: Self)
        ensures
            call_ensures(T::default, (), r.value()),
            r.version() == INITIAL_VERSION,
    {
        Self::new(T::default())
    }
}

impl<T: Clone> Clone for Versioned<T> {
    /// Clones the value. The clone starts over at version [`INITIAL_VERSION`]:
    /// it does not keep the version of the cell it was cloned from.
    fn clone(&self) -> (r: Self)
        ensures
            cloned(self.value(), r.value()),
            r.version() == INITIAL_VERSION,
    {
        Self::new(self.0.clone())
    }
}

impl<T: Copy> Copy for Versioned<T> {}

impl<T> std::ops::Deref for Versioned<T> {
    type Target = T;

    /// Reads the value. The version is not touched.
    fn deref(&self) -> (r: &T)
        ensures
            *r == self.value(),
    {
        self.get()
    }
}

impl<T> AsRef<T> for Versioned<T> {
    /// Reads the value. The version is not touched.
    fn as_ref(&self) -> (r: &T)
        ensures
            *r == self.value(),
    {
        self.get()
    }
}

} // verus!
