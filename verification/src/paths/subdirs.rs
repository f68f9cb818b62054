//! The subdirectories of the data root, one per kind of stored file.
use vstd::prelude::*;
use vstd::std_specs::convert::FromSpecImpl;
use crate::paths::{join_path, join_relative, spec_root_folder, DEFAULT_ROOT_FOLDER};

verus! {

#[derive(Debug, Clone, Copy, PartialEq, Eq, Structural)]
pub enum Subdir {
    MotionProfiles,
    WeldProfiles,
    Logs,
    Config,
    ConnectionProfiles,
}

/// Number of subdirectories.
pub const SUBDIR_COUNT: usize = 5;

impl Subdir {
    /// The position of the subdirectory in `variants`.
    pub open spec fn spec_index(self) -> u8 {
        match self {
            Subdir::MotionProfiles => 0,
            Subdir::WeldProfiles => 1,
            Subdir::Logs => 2,
            Subdir::Config => 3,
            Subdir::ConnectionProfiles => 4,
        }
    }

    pub open spec fn spec_variants() -> Seq<Subdir> {
        seq![
            Subdir::MotionProfiles,
            Subdir::WeldProfiles,
            Subdir::Logs,
            Subdir::Config,
            Subdir::ConnectionProfiles,
        ]
    }

    /// Every subdirectory, in declaration order.
    pub fn variants() -> (v: [Subdir; 5])
        ensures
            v@ == Self::spec_variants(),
    {
        let v = [
            Subdir::MotionProfiles,
            Subdir::WeldProfiles,
            Subdir::Logs,
            Subdir::Config,
            Subdir::ConnectionProfiles,
        ];
        assert(v@ =~= Self::spec_variants());
        v
    }

    pub open spec fn spec_path(self) -> Seq<char> {
        match self {
            Subdir::MotionProfiles => "motion-profiles"@,
            Subdir::WeldProfiles => "weld-profiles"@,
            Subdir::Logs => "logs"@,
            Subdir::Config => "config"@,
            Subdir::ConnectionProfiles => "connection-profiles"@,
        }
    }

    /// The directory's name under a data root.
    pub fn path(&self) -> (s: &'static str)
        ensures
            s@ == self.spec_path(),
    {
        match self {
            Subdir::MotionProfiles => "motion-profiles",
            Subdir::WeldProfiles => "weld-profiles",
            Subdir::Logs => "logs",
            Subdir::Config => "config",
            Subdir::ConnectionProfiles => "connection-profiles",
        }
    }

    /// The directory under the local data root `root`.
    pub fn local_path(&self, root: &str) -> (p: String)
        ensures
            p@ == join_relative(root@, self.spec_path()),
    {
        join_path(root, self.path())
    }

    /// The directory on a USB drive mounted at `usb_root`: under the data root folder.
    pub fn path_in_usb_root(&self, usb_root: &str) -> (p: String)
        ensures
            p@ == join_relative(join_relative(usb_root@, spec_root_folder()), self.spec_path()),
    {
        let root = join_path(usb_root, DEFAULT_ROOT_FOLDER);
        join_path(root.as_str(), self.path())
    }
}

impl From<Subdir> for u8 {
    fn from(subdir: Subdir) -> (r: u8) {
        match subdir {
            Subdir::MotionProfiles => 0,
            Subdir::WeldProfiles => 1,
            Subdir::Logs => 2,
            Subdir::Config => 3,
            Subdir::ConnectionProfiles => 4,
        }
    }
}

impl FromSpecImpl<Subdir> for u8 {
    open spec fn obeys_from_spec() -> bool {
        true
    }

    open spec fn from_spec(subdir: Subdir) -> u8 {
        subdir.spec_index()
    }
}

/// The path of every subdirectory, indexed by `Subdir`.
pub struct SubdirPaths {
    pub paths: [String; 5],
}

impl SubdirPaths {
    /// The path of `subdir`.
    pub fn get(&self, subdir: Subdir) -> (p: &String)
        ensures
            p == self.paths@[subdir.spec_index() as int],
    {
        let offset: u8 = subdir.into();
        &self.paths[offset as usize]
    }

    /// The paths `mapper` gives each subdirectory, called in declaration order.
    pub fn new_mapped<F>(mut mapper: F) -> (s: Self)
        where
            F: FnMut(Subdir) -> String,
        requires
            forall|d: Subdir| call_requires(mapper, (d,)),
        ensures
            forall|k: int| 0 <= k < 5 ==> call_ensures(
                mapper,
                (Subdir::spec_variants()[k],),
                #[trigger] s.paths@[k],
            ),
    {
        let p0 = mapper(Subdir::MotionProfiles);
        let p1 = mapper(Subdir::WeldProfiles);
        let p2 = mapper(Subdir::Logs);
        let p3 = mapper(Subdir::Config);
        let p4 = mapper(Subdir::ConnectionProfiles);
        SubdirPaths { paths: [p0, p1, p2, p3, p4] }
    }
}

} // verus!
