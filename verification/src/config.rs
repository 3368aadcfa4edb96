//! The configuration: a workspace, and named groups of mirrors.

use vstd::prelude::*;

verus! {

/// Mirror configuration: a repository to copy from `src` to `dest`. `name` is
/// the directory of its bare copy.
#[derive(Debug, PartialEq, Eq)]
pub struct Mirror {
    pub name: String,
    pub src: String,
    pub dest: String,
}

/// A named group of mirrors. `name` is its directory under the workspace.
#[derive(Debug, PartialEq, Eq)]
pub struct Configuration {
    pub name: String,
    pub mirrors: Vec<Mirror>,
}

/// Configuration file: the workspace directory and the groups of mirrors.
#[derive(Debug, PartialEq, Eq)]
pub struct RootConfig {
    pub workspace: String,
    pub configurations: Vec<Configuration>,
}

/// The mathematical value of a [`Mirror`].
pub struct MirrorView {
    pub name: Seq<char>,
    pub src: Seq<char>,
    pub dest: Seq<char>,
}

/// The mathematical value of a [`Configuration`].
pub struct ConfigurationView {
    pub name: Seq<char>,
    pub mirrors: Seq<MirrorView>,
}

/// The mathematical value of a [`RootConfig`].
pub struct RootConfigView {
    pub workspace: Seq<char>,
    pub configurations: Seq<ConfigurationView>,
}

impl ConfigurationView {
    /// Whether a configuration in memory can have this value: its mirrors
    /// can be counted in a `usize`.
    pub open spec fn fits(self) -> bool {
        self.mirrors.len() <= usize::MAX
    }
}

impl RootConfigView {
    /// Whether a configuration file in memory can have this value: its
    /// configurations, and the mirrors of each, can be counted in a `usize`.
    pub open spec fn fits(self) -> bool {
        &&& self.configurations.len() <= usize::MAX
        &&& forall|i: int|
            0 <= i < self.configurations.len() ==> (#[trigger] self.configurations[i]).fits()
    }
}

impl View for Mirror {
    type V = MirrorView;

    open spec fn view(&self) -> MirrorView {
        MirrorView { name: self.name@, src: self.src@, dest: self.dest@ }
    }
}

impl View for Configuration {
    type V = ConfigurationView;

    open spec fn view(&self) -> ConfigurationView {
        ConfigurationView {
            name: self.name@,
            mirrors: self.mirrors@.map_values(|mirror: Mirror| mirror@),
        }
    }
}

impl View for RootConfig {
    type V = RootConfigView;

    open spec fn view(&self) -> RootConfigView {
        RootConfigView {
            workspace: self.workspace@,
            configurations: self.configurations@.map_values(
                |configuration: Configuration| configuration@,
            ),
        }
    }
}

/// The value of every configuration file in memory fits.
pub proof fn view_fits(root_config: RootConfig)
    ensures
        root_config@.fits(),
{
    assert(root_config@.configurations.len() == root_config.configurations.len());
    assert forall|i: int| 0 <= i < root_config@.configurations.len() implies (
    #[trigger] root_config@.configurations[i]).fits() by {
        let configuration = root_config.configurations@[i];
        assert(root_config@.configurations[i] == configuration@);
        assert(configuration@.mirrors.len() == configuration.mirrors.len());
    }
}

} // verus!
