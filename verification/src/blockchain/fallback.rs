use vstd::prelude::*;
use vstd::string::StringExecFns;
use crate::asset::AssetModel;
use crate::blockchain::defiasset::{models_of, DefiAsset};
use crate::error::{ApiError, ErrorKind, Failure};
use crate::ethereum::EthereumChain;

verus! {

/// One of the questions that a node is asked about a wallet.
#[derive(Clone, Copy, Debug, PartialEq, Eq, Structural)]
pub enum NodeStep {
    /// The wallet's balance of the chain's native coin.
    Native,
    /// The wallet's positions in the Venus markets.
    Venus,
    /// The wallet's positions in the Alpaca vaults.
    Alpaca,
    /// The wallet's positions in the Benqi markets.
    Benqi,
}

/// The question that follows `step` on `chain`, if any. Venus and Alpaca are
/// asked on the Binance Smart Chain only, Benqi on Avalanche only.
pub open spec fn step_after(chain: EthereumChain, step: NodeStep) -> Option<NodeStep> {
    match step {
        NodeStep::Native => if chain == EthereumChain::BinanceSmartChain {
            Some(NodeStep::Venus)
        } else if chain == EthereumChain::AvalancheC {
            Some(NodeStep::Benqi)
        } else {
            None
        },
        NodeStep::Venus => Some(NodeStep::Alpaca),
        NodeStep::Alpaca => None,
        NodeStep::Benqi => None,
    }
}

/// How many questions can at most follow `step`.
pub open spec fn steps_left(step: NodeStep) -> nat {
    match step {
        NodeStep::Native => 2,
        NodeStep::Venus => 1,
        NodeStep::Alpaca => 0,
        NodeStep::Benqi => 0,
    }
}

/// What the caller is to do next.
pub enum NodeAction {
    /// Ask the node at this place of the configured nodes this question, and
    /// report the answer.
    Query { node: usize, step: NodeStep },
    /// The valuation is done: these are the wallet's assets.
    Finished(Vec<DefiAsset>),
    /// The valuation has failed.
    Failed(ApiError),
}

/// What a `NodeAction` says.
pub enum ActionModel {
    Query { node: usize, step: NodeStep },
    Finished(Seq<AssetModel>),
    Failed(ErrorKind, Seq<char>),
}

impl NodeAction {
    /// What this action says.
    pub open spec fn model(&self) -> ActionModel {
        match *self {
            NodeAction::Query { node, step } => ActionModel::Query { node, step },
            NodeAction::Finished(assets) => ActionModel::Finished(models_of(assets@)),
            NodeAction::Failed(e) => ActionModel::Failed(e.kind(), e.message()),
        }
    }
}

/// How far a valuation has come: the chain, the places of the nodes that
/// serve it, which of them is being asked, which question it is being asked,
/// what it has answered so far, and whether an answer is awaited.
pub struct FallbackModel {
    pub chain: EthereumChain,
    pub nodes: Seq<usize>,
    pub position: int,
    pub step: NodeStep,
    pub collected: Seq<AssetModel>,
    pub waiting: bool,
}

impl FallbackModel {
    /// While an answer is awaited, the node being asked is one of the nodes.
    pub open spec fn wf(self) -> bool {
        self.waiting ==> 0 <= self.position < self.nodes.len()
    }
}

/// The failure of a valuation for whose chain no node is configured.
pub open spec fn none_configured(chain: EthereumChain) -> ActionModel {
    ActionModel::Failed(
        ErrorKind::Configuration,
        "No node configured for blockchain "@ + chain.name(),
    )
}

/// The failure of a valuation none of whose nodes answered every question.
pub open spec fn all_failed(chain: EthereumChain) -> ActionModel {
    ActionModel::Failed(
        ErrorKind::Network,
        "All nodes for blockchain "@ + chain.name() + " failed for at least one contract"@,
    )
}

/// The start of a valuation: the first node is asked for the native balance;
/// without a node the valuation fails at once.
pub open spec fn started(chain: EthereumChain, nodes: Seq<usize>) -> (FallbackModel, ActionModel) {
    if nodes.len() == 0 {
        (
            FallbackModel {
                chain,
                nodes,
                position: 0,
                step: NodeStep::Native,
                collected: Seq::empty(),
                waiting: false,
            },
            none_configured(chain),
        )
    } else {
        (
            FallbackModel {
                chain,
                nodes,
                position: 0,
                step: NodeStep::Native,
                collected: Seq::empty(),
                waiting: true,
            },
            ActionModel::Query { node: nodes[0], step: NodeStep::Native },
        )
    }
}

/// One step of a valuation. A failure drops all that the node has answered and
/// moves on to the next node, or fails the valuation where there is none. An
/// answer is kept, and the same node is asked the next question, or the
/// valuation ends with all that this node answered where there is none.
pub open spec fn advanced(m: FallbackModel, answer: Result<Seq<AssetModel>, Failure>) -> (
    FallbackModel,
    ActionModel,
) {
    match answer {
        Err(_) => if m.position + 1 < m.nodes.len() {
            (
                FallbackModel {
                    chain: m.chain,
                    nodes: m.nodes,
                    position: m.position + 1,
                    step: NodeStep::Native,
                    collected: Seq::empty(),
                    waiting: true,
                },
                ActionModel::Query { node: m.nodes[m.position + 1], step: NodeStep::Native },
            )
        } else {
            (
                FallbackModel {
                    chain: m.chain,
                    nodes: m.nodes,
                    position: m.position,
                    step: m.step,
                    collected: Seq::empty(),
                    waiting: false,
                },
                all_failed(m.chain),
            )
        },
        Ok(assets) => match step_after(m.chain, m.step) {
            Some(next) => (
                FallbackModel {
                    chain: m.chain,
                    nodes: m.nodes,
                    position: m.position,
                    step: next,
                    collected: m.collected + assets,
                    waiting: true,
                },
                ActionModel::Query { node: m.nodes[m.position], step: next },
            ),
            None => (
                FallbackModel {
                    chain: m.chain,
                    nodes: m.nodes,
                    position: m.position,
                    step: m.step,
                    collected: Seq::empty(),
                    waiting: false,
                },
                ActionModel::Finished(m.collected + assets),
            ),
        },
    }
}

/// What one node answers to each question from `step` on, added to `so_far`;
/// `None` where it fails one of them.
pub open spec fn node_yield(
    chain: EthereumChain,
    answers: spec_fn(usize, NodeStep) -> Result<Seq<AssetModel>, Failure>,
    node: usize,
    step: NodeStep,
    so_far: Seq<AssetModel>,
) -> Option<Seq<AssetModel>>
    decreases steps_left(step),
{
    match answers(node, step) {
        Err(_) => None,
        Ok(assets) => match step_after(chain, step) {
            Some(next) => node_yield(chain, answers, node, next, so_far + assets),
            None => Some(so_far + assets),
        },
    }
}

/// All that the first node answers that answers every question, among the
/// nodes from the place `from` on; `None` where each of them fails a question.
pub open spec fn first_success(
    chain: EthereumChain,
    nodes: Seq<usize>,
    answers: spec_fn(usize, NodeStep) -> Result<Seq<AssetModel>, Failure>,
    from: int,
) -> Option<Seq<AssetModel>>
    decreases nodes.len() - from,
{
    if from < 0 || from >= nodes.len() {
        None
    } else {
        match node_yield(chain, answers, nodes[from], NodeStep::Native, Seq::empty()) {
            Some(assets) => Some(assets),
            None => first_success(chain, nodes, answers, from + 1),
        }
    }
}

/// The action on which a valuation ends when every question that it asks is
/// answered as `answers` says.
pub open spec fn outcome_of_run(
    m: FallbackModel,
    action: ActionModel,
    answers: spec_fn(usize, NodeStep) -> Result<Seq<AssetModel>, Failure>,
) -> ActionModel
    decreases m.nodes.len() - m.position, steps_left(m.step),
{
    match action {
        ActionModel::Query { node, step } => if m.waiting && 0 <= m.position < m.nodes.len() {
            let next = advanced(m, answers(node, step));
            if next.1 is Query {
                outcome_of_run(next.0, next.1, answers)
            } else {
                next.1
            }
        } else {
            action
        },
        _ => action,
    }
}

/// A valuation that waits for the answer of the node at `m.position` to the
/// question `m.step` ends with all that this node answers, where it answers
/// every question that is left, and otherwise as the nodes after it decide.
pub proof fn lemma_run_from(
    m: FallbackModel,
    answers: spec_fn(usize, NodeStep) -> Result<Seq<AssetModel>, Failure>,
)
    requires
        m.waiting,
        0 <= m.position < m.nodes.len(),
    ensures
        outcome_of_run(
            m,
            ActionModel::Query { node: m.nodes[m.position], step: m.step },
            answers,
        ) == (match node_yield(m.chain, answers, m.nodes[m.position], m.step, m.collected) {
            Some(assets) => ActionModel::Finished(assets),
            None => match first_success(m.chain, m.nodes, answers, m.position + 1) {
                Some(assets) => ActionModel::Finished(assets),
                None => all_failed(m.chain),
            },
        }),
    decreases m.nodes.len() - m.position, steps_left(m.step),
{
    let node = m.nodes[m.position];
    let next = advanced(m, answers(node, m.step));
    match answers(node, m.step) {
        Err(_) => {
            if m.position + 1 < m.nodes.len() {
                lemma_run_from(next.0, answers);
            }
        },
        Ok(assets) => {
            match step_after(m.chain, m.step) {
                Some(following) => {
                    lemma_run_from(next.0, answers);
                },
                None => {},
            }
        },
    }
}

/// Node fallback: a valuation ends with all that the first of the chain's
/// nodes answers that answers every question, and with nothing of the nodes
/// before it. Where every node fails a question it fails with an error that
/// names the chain, and so it does where the chain has no node.
pub proof fn lemma_run_finds_first_success(
    chain: EthereumChain,
    nodes: Seq<usize>,
    answers: spec_fn(usize, NodeStep) -> Result<Seq<AssetModel>, Failure>,
)
    ensures
        outcome_of_run(started(chain, nodes).0, started(chain, nodes).1, answers) == (if nodes.len()
            == 0 {
            none_configured(chain)
        } else {
            match first_success(chain, nodes, answers, 0) {
                Some(assets) => ActionModel::Finished(assets),
                None => all_failed(chain),
            }
        }),
{
    if nodes.len() > 0 {
        lemma_run_from(started(chain, nodes).0, answers);
    }
}

/// A valuation in progress: it tells which node to ask what, takes the
/// answers, and falls back to the next node when one fails.
pub struct NodeFallback {
    chain: EthereumChain,
    nodes: Vec<usize>,
    position: usize,
    step: NodeStep,
    collected: Vec<DefiAsset>,
    waiting: bool,
}

/// What an answer says: the holdings it lists, or what its failure says.
pub open spec fn answer_model(answer: Result<Vec<DefiAsset>, ApiError>) -> Result<
    Seq<AssetModel>,
    Failure,
> {
    match answer {
        Ok(assets) => Ok(models_of(assets@)),
        Err(e) => Err(e.failure()),
    }
}

/// The models of two lists in a row are the models of the lists in a row.
pub proof fn lemma_models_of_concat(a: Seq<DefiAsset>, b: Seq<DefiAsset>)
    ensures
        models_of(a + b) == models_of(a) + models_of(b),
{
    assert(models_of(a + b) =~= models_of(a) + models_of(b));
}

impl NodeFallback {
    /// How far the valuation has come.
    pub closed spec fn model(&self) -> FallbackModel {
        FallbackModel {
            chain: self.chain,
            nodes: self.nodes@,
            position: self.position as int,
            step: self.step,
            collected: models_of(self.collected@),
            waiting: self.waiting,
        }
    }

    /// Begins the valuation of a wallet on `chain`, which the nodes at the
    /// places `nodes` serve.
    pub fn start(chain: EthereumChain, nodes: Vec<usize>) -> (r: (NodeFallback, NodeAction))
        ensures
            (r.0.model(), r.1.model()) == started(chain, nodes@),
            r.0.model().wf(),
    {
        let collected: Vec<DefiAsset> = Vec::new();
        assert(models_of(collected@) =~= Seq::empty());
        if nodes.len() == 0 {
            let failure = ApiError::describe(
                ErrorKind::Configuration,
                "No node configured for blockchain ",
                chain.to_str(),
            );
            (
                NodeFallback {
                    chain,
                    nodes,
                    position: 0,
                    step: NodeStep::Native,
                    collected,
                    waiting: false,
                },
                NodeAction::Failed(failure),
            )
        } else {
            let first = nodes[0];
            (
                NodeFallback {
                    chain,
                    nodes,
                    position: 0,
                    step: NodeStep::Native,
                    collected,
                    waiting: true,
                },
                NodeAction::Query { node: first, step: NodeStep::Native },
            )
        }
    }

    /// Whether the valuation awaits an answer.
    pub fn is_waiting(&self) -> (waiting: bool)
        ensures
            waiting == self.model().waiting,
    {
        self.waiting
    }

    /// The question that follows `step` on this valuation's chain.
    fn next_step(&self, step: NodeStep) -> (next: Option<NodeStep>)
        ensures
            next == step_after(self.chain, step),
    {
        match step {
            NodeStep::Native => if self.chain == EthereumChain::BinanceSmartChain {
                Some(NodeStep::Venus)
            } else if self.chain == EthereumChain::AvalancheC {
                Some(NodeStep::Benqi)
            } else {
                None
            },
            NodeStep::Venus => Some(NodeStep::Alpaca),
            NodeStep::Alpaca => None,
            NodeStep::Benqi => None,
        }
    }

    /// Takes the answer to the question that was asked last and tells what
    /// to do next.
    pub fn advance(&mut self, answer: Result<Vec<DefiAsset>, ApiError>) -> (action: NodeAction)
        requires
            old(self).model().waiting,
            old(self).model().wf(),
        ensures
            (final(self).model(), action.model()) == advanced(
                old(self).model(),
                answer_model(answer),
            ),
            final(self).model().wf(),
    {
        assert(self.position < self.nodes.len());
        match answer {
            Err(_) => {
                self.collected = Vec::new();
                assert(models_of(self.collected@) =~= Seq::empty());
                if self.position + 1 < self.nodes.len() {
                    self.position = self.position + 1;
                    self.step = NodeStep::Native;
                    NodeAction::Query { node: self.nodes[self.position], step: NodeStep::Native }
                } else {
                    self.waiting = false;
                    let mut text = String::from_str("All nodes for blockchain ");
                    text.append(self.chain.to_str());
                    text.append(" failed for at least one contract");
                    NodeAction::Failed(ApiError::with_kind(ErrorKind::Network, text))
                }
            },
            Ok(assets) => {
                let mut assets = assets;
                proof {
                    lemma_models_of_concat(self.collected@, assets@);
                }
                self.collected.append(&mut assets);
                match self.next_step(self.step) {
                    Some(next) => {
                        self.step = next;
                        NodeAction::Query { node: self.nodes[self.position], step: next }
                    },
                    None => {
                        self.waiting = false;
                        let mut done: Vec<DefiAsset> = Vec::new();
                        done.append(&mut self.collected);
                        assert(done@ =~= old(self).collected@ + answer->Ok_0@);
                        assert(models_of(self.collected@) =~= Seq::empty());
                        NodeAction::Finished(done)
                    },
                }
            },
        }
    }
}

} // verus!
