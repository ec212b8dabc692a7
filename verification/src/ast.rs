//! Syntax-tree types of the SysML v2 / KerML textual notation that hold no
//! expression: names, the enumerations of kinds, and the relationship items
//! built from qualified names.

use vstd::prelude::*;

use crate::token::Span;

verus! {

/// A declared name, referencing a span in the source text.
#[derive(Debug, Clone, PartialEq, Eq)]
pub struct Name {
    pub span: Span,
    pub value: String,
}

/// A qualified name: `A::B::C`.
#[derive(Debug, Clone, PartialEq, Eq)]
pub struct QualifiedName {
    pub span: Span,
    pub segments: Vec<Name>,
}

/// Visibility of a membership or import.
#[derive(Debug, Clone, Copy, PartialEq, Eq, Structural)]
pub enum Visibility {
    Public,
    Private,
    Protected,
}

/// Direction of a feature (parameter, port, etc.).
#[derive(Debug, Clone, Copy, PartialEq, Eq, Structural)]
pub enum FeatureDirection {
    In,
    Out,
    Inout,
}

/// Portion kind for occurrence usages.
#[derive(Debug, Clone, Copy, PartialEq, Eq, Structural)]
pub enum PortionKind {
    Snapshot,
    Timeslice,
}

/// Kind of constraint within a requirement body.
#[derive(Debug, Clone, Copy, PartialEq, Eq, Structural)]
pub enum RequirementConstraintKind {
    Assumption,
    Requirement,
}

/// Kind of subaction within a state body.
#[derive(Debug, Clone, Copy, PartialEq, Eq, Structural)]
pub enum StateSubactionKind {
    Entry,
    Do,
    Exit,
}

/// Kind of feature within a transition.
#[derive(Debug, Clone, Copy, PartialEq, Eq, Structural)]
pub enum TransitionFeatureKind {
    Trigger,
    Guard,
    Effect,
}

/// Kind of trigger invocation expression.
#[derive(Debug, Clone, Copy, PartialEq, Eq, Structural)]
pub enum TriggerKind {
    At,
    After,
    When,
}

#[derive(Debug, Clone, Copy, PartialEq, Eq, Structural)]
pub enum ClassifierKind {
    Type,
    Classifier,
    Class,
    DataType,
    Structure,
    Association,
    AssociationStructure,
    Metaclass,
    Behavior,
    Function,
    Predicate,
    Interaction,
}

#[derive(Debug, Clone, Copy, PartialEq, Eq, Structural)]
pub enum DefinitionKind {
    /// `attribute def`
    Attribute,
    /// `enum def`
    Enumeration,
    /// `occurrence def`
    Occurrence,
    /// `item def`
    Item,
    /// `part def`
    Part,
    /// `port def`
    Port,
    /// Implied conjugated port definition
    ConjugatedPort,
    /// `connection def`
    Connection,
    /// `interface def`
    Interface,
    /// `allocation def`
    Allocation,
    /// `flow def`
    Flow,
    /// `action def`
    Action,
    /// `state def`
    State,
    /// `calc def`
    Calculation,
    /// `constraint def`
    Constraint,
    /// `requirement def`
    Requirement,
    /// `concern def`
    Concern,
    /// `viewpoint def`
    Viewpoint,
    /// `case def`
    Case,
    /// `analysis def`
    AnalysisCase,
    /// `verification def`
    VerificationCase,
    /// `use case def`
    UseCase,
    /// `view def`
    View,
    /// `rendering def`
    Rendering,
    /// `metadata def`
    Metadata,
}

#[derive(Debug, Clone, Copy, PartialEq, Eq, Structural)]
pub enum UsageKind {
    /// `attribute`
    Attribute,
    /// `enum`
    Enumeration,
    /// `occurrence`
    Occurrence,
    /// `item`
    Item,
    /// `part`
    Part,
    /// `port`
    Port,
    /// `ref`
    Reference,
    /// `connection` / `connect`
    Connection,
    /// `interface`
    Interface,
    /// `allocation` / `allocate`
    Allocation,
    /// `flow`
    Flow,
    /// `succession flow`
    SuccessionFlow,
    /// `action`
    Action,
    /// `state`
    State,
    /// `transition`
    Transition,
    /// `calc`
    Calculation,
    /// `constraint`
    Constraint,
    /// `requirement`
    Requirement,
    /// `concern`
    Concern,
    /// `viewpoint`
    Viewpoint,
    /// `case`
    Case,
    /// `analysis`
    AnalysisCase,
    /// `verification`
    VerificationCase,
    /// `use case`
    UseCase,
    /// `view`
    View,
    /// `rendering`
    Rendering,
    /// `metadata` / `@`
    Metadata,
    /// `event occurrence` / `event`
    EventOccurrence,
}

#[derive(Debug, Clone, Copy, PartialEq, Eq, Structural)]
pub enum ActionNodeKind {
    /// `if ... then ... else ...`
    IfAction,
    /// `while` / `loop`
    WhileLoop,
    /// `for ... in ...`
    ForLoop,
    /// `fork`
    Fork,
    /// `join`
    Join,
    /// `merge`
    Merge,
    /// `decide`
    Decision,
    /// `accept`
    Accept,
    /// `send ... via/to ...`
    Send,
    /// `assign ... := ...`
    Assign,
    /// `terminate`
    Terminate,
    /// `perform`
    Perform,
    /// `exhibit`
    ExhibitState,
    /// `include`
    IncludeUseCase,
    /// `assert`
    AssertConstraint,
    /// `satisfy`
    SatisfyRequirement,
}

#[derive(Debug, Clone, Copy, PartialEq, Eq, Structural)]
pub enum ConnectorAsUsageKind {
    /// `bind x = y`
    Binding,
    /// `first x then y`
    Succession,
}

#[derive(Debug, Clone, Copy, PartialEq, Eq, Structural)]
pub enum FeatureKind {
    /// `feature`
    Feature,
    /// `step`
    Step,
    /// `expr`
    Expression,
    /// `bool`
    BooleanExpression,
    /// `inv`
    Invariant,
    /// `connector`
    Connector,
    /// `binding`
    BindingConnector,
    /// `succession`
    Succession,
    /// `flow`
    Flow,
    /// `succession flow` (KerML level)
    SuccessionFlow,
}

#[derive(Debug, Clone, Copy, PartialEq, Eq, Structural)]
pub enum FeatureValueKind {
    /// `= expr` — bound value
    Bind,
    /// `:= expr` — initial value (assignment)
    Initial,
    /// `default = expr` — default bound
    DefaultBind,
    /// `default := expr` — default initial
    DefaultInitial,
}

/// A specialization, typing, subsetting, or redefinition appearing in a declaration.
#[derive(Debug, Clone, PartialEq, Eq)]
pub struct SpecializationItem {
    pub span: Span,
    pub kind: SpecializationKind,
    pub target: QualifiedName,
}

#[derive(Debug, Clone, Copy, PartialEq, Eq, Structural)]
pub enum SpecializationKind {
    /// `:` or `typed by`
    Typing,
    /// `:` or `defined by`
    DefinedBy,
    /// `:>` or `specializes`
    Specializes,
    /// `:>` or `subsets`
    Subsets,
    /// `::>` or `references`
    References,
    /// `=>` or `crosses`
    Crosses,
    /// `:>>` or `redefines`
    Redefines,
    /// `~` or `conjugates`
    Conjugates,
}

#[derive(Debug, Clone, Copy, PartialEq, Eq, Structural)]
pub enum RelationshipKind {
    /// General specialization relationship (KerML)
    Specialization,
    /// Classifier-to-classifier specialization
    Subclassification,
    /// Feature typed by a type
    FeatureTyping,
    /// Typing via conjugated port definition
    ConjugatedPortTyping,
    /// Feature subsetting
    Subsetting,
    /// Non-owning subsetting
    ReferenceSubsetting,
    /// Cross-feature subsetting
    CrossSubsetting,
    /// Feature redefinition
    Redefinition,
    /// Type conjugation
    Conjugation,
    /// Port-specific conjugation
    PortConjugation,
    /// Types declared disjoint
    Disjoining,
    /// Feature direction inversion
    FeatureInverting,
    /// Feature featured by a type
    TypeFeaturing,
    /// Feature chain link
    FeatureChaining,
    /// Type difference
    Differencing,
    /// Type intersection
    Intersecting,
    /// Type union
    Unioning,
    /// `dependency`
    Dependency,
}

#[derive(Debug, Clone, Copy, PartialEq, Eq, Structural)]
pub enum MembershipKind {
    /// Basic membership (names an element in a namespace)
    Membership,
    /// Owning membership
    Owning,
    /// Feature membership (feature owned by a type)
    Feature,
    /// End feature of connector/association
    EndFeature,
    /// Feature value
    Value,
    /// Parameter of behavior/step
    Parameter,
    /// Return parameter
    ReturnParameter,
    /// Result expression of function body
    ResultExpression,
    /// Variant in a variation
    Variant,
    /// Filter expression in package
    ElementFilter,
    /// `objective` in case body
    Objective,
    /// `subject` in requirement/case
    Subject,
    /// `actor` in requirement/case
    Actor,
    /// `stakeholder` in requirement
    Stakeholder,
    /// `assume` / `require` in requirement body
    RequirementConstraint(RequirementConstraintKind),
    /// `frame` in requirement
    FramedConcern,
    /// `verify` in requirement
    RequirementVerification,
    /// `entry` / `do` / `exit` in state
    StateSubaction(StateSubactionKind),
    /// `accept` / `if` / `do` in transition
    TransitionFeature(TransitionFeatureKind),
    /// `render` in view
    ViewRendering,
}

#[derive(Debug, Clone, PartialEq, Eq)]
pub struct ImportNode {
    pub span: Span,
    pub kind: ImportKind,
    pub visibility: Option<Visibility>,
    pub target: QualifiedName,
    pub is_all: bool,
    pub is_recursive: bool,
}

#[derive(Debug, Clone, Copy, PartialEq, Eq, Structural)]
pub enum ImportKind {
    /// `import X;` — import a single membership
    Membership,
    /// `import X::*;` — import all from namespace
    Namespace,
    /// `expose X;` — expose a single membership (in views)
    MembershipExpose,
    /// `expose X::*;` — expose all from namespace (in views)
    NamespaceExpose,
}

/// Type test operators.
#[derive(Debug, Clone, Copy, PartialEq, Eq, Structural)]
pub enum TypeTestOp {
    /// `istype`
    IsType,
    /// `hastype`
    HasType,
    /// `instanceof` (KerML)
    InstanceOf,
}

/// `alias <name> for <target>;`
#[derive(Debug, Clone, PartialEq, Eq)]
pub struct AliasNode {
    pub span: Span,
    pub name: Name,
    pub target: QualifiedName,
}

} // verus!
