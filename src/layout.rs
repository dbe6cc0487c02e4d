//! Where things live in a builder workspace: the folder that holds the
//! configuration file, the LVGL checkout in it, one folder per board and one
//! results file per board.
use vstd::prelude::*;
use vstd::string::StringExecFns;

verus! {

/// A filesystem path, held as its components.
pub struct FsPath {
    /// Whether the path starts at the root.
    pub absolute: bool,
    /// The names, outermost first.
    pub parts: Vec<String>,
}

pub struct PathModel {
    pub absolute: bool,
    pub parts: Seq<Seq<char>>,
}

impl View for FsPath {
    type V = PathModel;

    open spec fn view(&self) -> PathModel {
        PathModel { absolute: self.absolute, parts: self.parts@.map_values(|s: String| s@) }
    }
}

/// `p` with the name `name` added at its end.
pub open spec fn joined(p: PathModel, name: Seq<char>) -> PathModel {
    PathModel { parts: p.parts.push(name), ..p }
}

/// The folder that holds what `p` names.
pub open spec fn parent_of(p: PathModel) -> PathModel {
    PathModel { parts: p.parts.drop_last(), ..p }
}

/// The workspace is the folder that holds the configuration file.
pub open spec fn workspace_of(config_path: PathModel) -> PathModel {
    parent_of(config_path)
}

impl FsPath {
    /// The path made of `parts`, from the root when `absolute`.
    pub fn new(absolute: bool, parts: Vec<String>) -> (p: FsPath)
        ensures
            p.absolute == absolute,
            p.parts@ == parts@,
    {
        FsPath { absolute, parts }
    }

    /// This path followed by `name`.
    pub fn join(&self, name: &str) -> (r: FsPath)
        ensures
            r@ == joined(self@, name@),
    {
        let mut parts: Vec<String> = Vec::new();
        let mut i: usize = 0;
        while i < self.parts.len()
            invariant
                i <= self.parts@.len(),
                parts@ == self.parts@.subrange(0, i as int),
            decreases self.parts@.len() - i,
        {
            parts.push(self.parts[i].clone());
            i += 1;
            assert(parts@ =~= self.parts@.subrange(0, i as int));
        }
        assert(self.parts@.subrange(0, self.parts@.len() as int) =~= self.parts@);
        parts.push(name.to_owned());
        let r = FsPath { absolute: self.absolute, parts };
        assert(r@.parts =~= self@.parts.push(name@));
        r
    }

    /// The folder that holds what this path names; `None` for the root or
    /// the empty path.
    pub fn parent(&self) -> (r: Option<FsPath>)
        ensures
            match r {
                Some(q) => self@.parts.len() > 0 && q@ == parent_of(self@),
                None => self@.parts.len() == 0,
            },
    {
        let n = self.parts.len();
        if n == 0 {
            return None;
        }
        let mut parts: Vec<String> = Vec::new();
        let mut i: usize = 0;
        while i < n - 1
            invariant
                n == self.parts@.len(),
                n > 0,
                i <= n - 1,
                parts@ == self.parts@.subrange(0, i as int),
            decreases n - 1 - i,
        {
            parts.push(self.parts[i].clone());
            i += 1;
            assert(parts@ =~= self.parts@.subrange(0, i as int));
        }
        let q = FsPath { absolute: self.absolute, parts };
        assert(q@.parts =~= self@.parts.drop_last());
        Some(q)
    }
}

/// The workspace folder: the one that holds the configuration file.
pub fn workspace_folder(config_path: &FsPath) -> (r: FsPath)
    requires
        config_path@.parts.len() > 0,
    ensures
        r@ == workspace_of(config_path@),
{
    config_path.parent().unwrap()
}

/// The LVGL checkout inside the workspace.
pub fn lvgl_folder(config_path: &FsPath) -> (r: FsPath)
    requires
        config_path@.parts.len() > 0,
    ensures
        r@ == joined(workspace_of(config_path@), "lvgl"@),
{
    workspace_folder(config_path).join("lvgl")
}

/// The build description at the top of the LVGL checkout.
pub fn lvgl_cmakelists(config_path: &FsPath) -> (r: FsPath)
    requires
        config_path@.parts.len() > 0,
    ensures
        r@ == joined(joined(workspace_of(config_path@), "lvgl"@), "CMakeLists.txt"@),
{
    lvgl_folder(config_path).join("CMakeLists.txt")
}

/// The copy of LVGL's build description kept in the workspace.
pub fn lvgl_snapshot_cmakelists(config_path: &FsPath) -> (r: FsPath)
    requires
        config_path@.parts.len() > 0,
    ensures
        r@ == joined(workspace_of(config_path@), "CMakeLists.lvgl.txt"@),
{
    workspace_folder(config_path).join("CMakeLists.lvgl.txt")
}

/// The project folder of a board.
pub fn board_folder(config_path: &FsPath, board_name: &str) -> (r: FsPath)
    requires
        config_path@.parts.len() > 0,
    ensures
        r@ == joined(workspace_of(config_path@), board_name@),
{
    workspace_folder(config_path).join(board_name)
}

/// The file a board's benchmark results are written to.
pub fn results_path(config_path: &FsPath, config_name: &str) -> (r: FsPath)
    requires
        config_path@.parts.len() > 0,
    ensures
        r@ == joined(workspace_of(config_path@), "results-"@ + config_name@),
{
    let name = "results-".to_owned().concat(config_name);
    workspace_folder(config_path).join(name.as_str())
}

/// The preparation of a workspace for a build.
pub struct BuildProcess {
    pub config_path: FsPath,
}

impl BuildProcess {
    /// The upstream LVGL clone that build files are taken from.
    pub fn lvgl_repo_path(&self) -> (r: FsPath)
        requires
            self.config_path@.parts.len() > 0,
        ensures
            r@ == joined(workspace_of(self.config_path@), "lvgl-master"@),
    {
        workspace_folder(&self.config_path).join("lvgl-master")
    }
}

} // verus!
