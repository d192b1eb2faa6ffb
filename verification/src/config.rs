//! The commands a client can send, and the layout of the panels that offer
//! them.

use vstd::prelude::*;
use vstd::string::StringExecFns;

verus! {

/// Pages of panels shown by a client.
#[derive(Clone, Debug, PartialEq, Eq)]
pub struct Config {
    pub pages: Vec<ConfigPage>,
}

/// One named page.
#[derive(Clone, Debug, PartialEq, Eq)]
pub struct ConfigPage {
    pub name: String,
    pub layout: ConfigPageLayout,
}

/// How the panels of a page are arranged.
#[derive(Clone, Debug, PartialEq, Eq)]
pub enum ConfigPageLayout {
    Linear {
        /// Panels in order, each with the share of the space it takes.
        ///
        /// A share is relative to the sum of all shares of the page. Keeping
        /// that sum at 100 lets them be read as percentages.
        panels: Vec<(i32, ConfigPanel)>,
    },
}

/// One panel of a page.
#[derive(Clone, Debug, PartialEq, Eq)]
pub enum ConfigPanel {
    Trackpad,
    ButtonGrid { rows: Vec<Vec<ConfigButton>> },
}

/// A labelled button and the command it sends.
#[derive(Clone, Debug, PartialEq, Eq)]
pub struct ConfigButton {
    pub label: String,
    pub command: RemoteCommand,
}

/// A command sent from the client to the host.
#[derive(Clone, Copy, Debug, PartialEq, Eq)]
pub enum RemoteCommand {
    /// Relative pointer motion.
    TrackpadMove { delta_x: i32, delta_y: i32 },
    /// One press and release of a pointer button.
    TrackpadClick { button: TrackpadButton },
    /// Relative scroll, each axis on its own.
    TrackpadScroll { delta_x: i32, delta_y: i32 },
    /// Ask the television to turn on.
    CecImageViewOn,
    /// Make the host the active source.
    CecActiveSourceSelf,
    /// Make the device at a physical address the active source. Each element
    /// is one digit of the address; only its low four bits are used.
    CecActiveSource { physical_address: [u8; 4] },
    /// Ask every device to go to standby.
    CecStandby,
    MpdPlayPause,
    MpdNext,
    MpdPrevious,
}

/// A pointer button.
#[derive(Clone, Copy, Debug, PartialEq, Eq, Structural)]
pub enum TrackpadButton {
    Left,
    Right,
    Middle,
}

/// What a button is, to a contract.
pub struct ButtonModel {
    pub label: Seq<char>,
    pub command: RemoteCommand,
}

/// What a panel is, to a contract.
pub enum PanelModel {
    Trackpad,
    ButtonGrid { rows: Seq<Seq<ButtonModel>> },
}

/// What the layout of a page is, to a contract.
pub enum LayoutModel {
    Linear { panels: Seq<(i32, PanelModel)> },
}

/// What a page is, to a contract.
pub struct PageModel {
    pub name: Seq<char>,
    pub layout: LayoutModel,
}

/// What a configuration is, to a contract.
pub struct ConfigModel {
    pub pages: Seq<PageModel>,
}

impl DeepView for ConfigButton {
    type V = ButtonModel;

    open spec fn deep_view(&self) -> ButtonModel {
        ButtonModel { label: self.label@, command: self.command }
    }
}

impl DeepView for ConfigPanel {
    type V = PanelModel;

    open spec fn deep_view(&self) -> PanelModel {
        match self {
            ConfigPanel::Trackpad => PanelModel::Trackpad,
            ConfigPanel::ButtonGrid { rows } => PanelModel::ButtonGrid { rows: rows.deep_view() },
        }
    }
}

impl DeepView for ConfigPageLayout {
    type V = LayoutModel;

    open spec fn deep_view(&self) -> LayoutModel {
        match self {
            ConfigPageLayout::Linear { panels } => LayoutModel::Linear {
                panels: panels.deep_view(),
            },
        }
    }
}

impl DeepView for ConfigPage {
    type V = PageModel;

    open spec fn deep_view(&self) -> PageModel {
        PageModel { name: self.name@, layout: self.layout.deep_view() }
    }
}

impl DeepView for Config {
    type V = ConfigModel;

    open spec fn deep_view(&self) -> ConfigModel {
        ConfigModel { pages: self.pages.deep_view() }
    }
}

/// The button with a label and a command.
pub open spec fn button_model(label: &str, command: RemoteCommand) -> ButtonModel {
    ButtonModel { label: label@, command }
}

/// The button that makes the device at the HDMI input `number` the active
/// source.
pub open spec fn input_model(label: &str, number: u8) -> ButtonModel {
    button_model(
        label,
        RemoteCommand::CecActiveSource { physical_address: [number, 0u8, 0u8, 0u8] },
    )
}

/// The rows of buttons of the page that is built in.
pub open spec fn builtin_rows() -> Seq<Seq<ButtonModel>> {
    seq![
        seq![
            button_model("Turn on", RemoteCommand::CecImageViewOn),
            button_model("Switch", RemoteCommand::CecActiveSourceSelf),
            button_model("Standby", RemoteCommand::CecStandby),
        ],
        seq![
            input_model("HDMI 1", 1),
            input_model("HDMI 2", 2),
            input_model("HDMI 3", 3),
            input_model("HDMI 4", 4),
        ],
        seq![
            button_model("Prev", RemoteCommand::MpdPrevious),
            button_model("Pause", RemoteCommand::MpdPlayPause),
            button_model("Next", RemoteCommand::MpdNext),
        ],
        Seq::<ButtonModel>::empty(),
    ]
}

/// The configuration that is built in: one page, a trackpad over a grid of
/// buttons.
pub open spec fn builtin_model() -> ConfigModel {
    ConfigModel {
        pages: seq![
            PageModel {
                name: "Test"@,
                layout: LayoutModel::Linear {
                    panels: seq![
                        (60i32, PanelModel::Trackpad),
                        (40i32, PanelModel::ButtonGrid { rows: builtin_rows() }),
                    ],
                },
            },
        ],
    }
}

impl ConfigButton {
    /// The button with a label and a command.
    pub fn new(label: &str, command: RemoteCommand) -> (button: ConfigButton)
        ensures
            button.deep_view() == button_model(label, command),
    {
        ConfigButton { label: String::from_str(label), command }
    }

    /// The button that makes the device at the HDMI input `number` the active
    /// source.
    pub fn input(label: &str, number: u8) -> (button: ConfigButton)
        ensures
            button.deep_view() == input_model(label, number),
    {
        let physical_address: [u8; 4] = [number, 0, 0, 0];
        assert(physical_address =~= [number, 0u8, 0u8, 0u8]);
        ConfigButton::new(label, RemoteCommand::CecActiveSource { physical_address })
    }
}

impl Config {
    /// Finds the first page with a name.
    pub fn find_page(&self, name: &String) -> (found: Option<usize>)
        ensures
            match found {
                Some(i) => i < self.pages.len() && self.pages[i as int].name@ == name@
                    && forall|j: int| 0 <= j < i ==> self.pages[j].name@ != name@,
                None => forall|j: int| 0 <= j < self.pages.len() ==> self.pages[j].name@ != name@,
            },
    {
        let mut i: usize = 0;
        while i < self.pages.len()
            invariant
                i <= self.pages.len(),
                forall|j: int| 0 <= j < i ==> self.pages[j].name@ != name@,
            decreases self.pages.len() - i,
        {
            if self.pages[i].name == *name {
                return Some(i);
            }
            i = i + 1;
        }
        None
    }

    /// The configuration that is built in.
    pub fn builtin() -> (config: Config)
        ensures
            config.deep_view() == builtin_model(),
    {
        let mut power: Vec<ConfigButton> = Vec::new();
        power.push(ConfigButton::new("Turn on", RemoteCommand::CecImageViewOn));
        power.push(ConfigButton::new("Switch", RemoteCommand::CecActiveSourceSelf));
        power.push(ConfigButton::new("Standby", RemoteCommand::CecStandby));
        assert(power.deep_view() =~= builtin_rows()[0]);
        let mut inputs: Vec<ConfigButton> = Vec::new();
        inputs.push(ConfigButton::input("HDMI 1", 1));
        inputs.push(ConfigButton::input("HDMI 2", 2));
        inputs.push(ConfigButton::input("HDMI 3", 3));
        inputs.push(ConfigButton::input("HDMI 4", 4));
        assert(inputs.deep_view() =~= builtin_rows()[1]);
        let mut media: Vec<ConfigButton> = Vec::new();
        media.push(ConfigButton::new("Prev", RemoteCommand::MpdPrevious));
        media.push(ConfigButton::new("Pause", RemoteCommand::MpdPlayPause));
        media.push(ConfigButton::new("Next", RemoteCommand::MpdNext));
        assert(media.deep_view() =~= builtin_rows()[2]);
        let spare: Vec<ConfigButton> = Vec::new();
        assert(spare.deep_view() =~= builtin_rows()[3]);
        let mut rows: Vec<Vec<ConfigButton>> = Vec::new();
        rows.push(power);
        rows.push(inputs);
        rows.push(media);
        rows.push(spare);
        assert(rows.deep_view() =~= builtin_rows());
        let mut panels: Vec<(i32, ConfigPanel)> = Vec::new();
        panels.push((60, ConfigPanel::Trackpad));
        panels.push((40, ConfigPanel::ButtonGrid { rows }));
        assert(panels.deep_view() =~= seq![
            (60i32, PanelModel::Trackpad),
            (40i32, PanelModel::ButtonGrid { rows: builtin_rows() }),
        ]);
        let mut pages: Vec<ConfigPage> = Vec::new();
        pages.push(
            ConfigPage {
                name: String::from_str("Test"),
                layout: ConfigPageLayout::Linear { panels },
            },
        );
        assert(pages.deep_view() =~= builtin_model().pages);
        Config { pages }
    }
}

} // verus!
