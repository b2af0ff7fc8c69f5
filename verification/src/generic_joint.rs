//! Joint descriptors and their translation into a joint configuration.
//!
//! A descriptor is a tagged union of joint variants, each carrying an ordered
//! list of settings. Translation seeds a configuration with the two local
//! anchors, then folds the settings into it left to right: a later entry for
//! the same setting kind overrides an earlier one, and a `NotSet` entry (or a
//! kind a variant does not recognize) is a deliberate no-op.

use vstd::prelude::*;

use crate::math::{Point3, Quat, Scalar};

verus! {

/// A local direction, one of the frame axes or its negation.
#[derive(Debug, Clone, Copy, PartialEq, Eq, Structural)]
pub enum Axis {
    X,
    Y,
    Z,
    NegY,
    NegX,
    NegZ,
}

/// One of the six degrees of freedom a joint can constrain: three linear,
/// three angular.
#[derive(Debug, Clone, Copy, PartialEq, Eq, Structural)]
pub enum JointAxisPrefab {
    X,
    Y,
    Z,
    AngX,
    AngY,
    AngZ,
}

/// How a joint motor drives its axis.
#[derive(Debug, Clone, Copy, PartialEq, Eq, Structural)]
pub enum MotorModelPrebuf {
    AccelerationBased,
    ForceBased,
}

/// Lower and upper bound for an axis.
#[derive(Debug, Clone, Copy, PartialEq, Eq, Structural)]
pub struct LimitsPrebuf {
    pub max: Scalar,
    pub min: Scalar,
}

/// Velocity drive: a target velocity and a damping factor. Each field feeds
/// the like-named motor parameter — the target velocity drives the axis, the
/// factor becomes the drive's damping coefficient.
#[derive(Debug, Clone, Copy, PartialEq, Eq, Structural)]
pub struct MotorVelocityPrebuf {
    pub target_vel: Scalar,
    pub factor: Scalar,
}

/// Position drive: a target position with stiffness and damping gains.
#[derive(Debug, Clone, Copy, PartialEq, Eq, Structural)]
pub struct MotorPositionPrebuf {
    pub target_pos: Scalar,
    pub stiffness: Scalar,
    pub damping: Scalar,
}

/// Combined drive setting every motor parameter at once.
#[derive(Debug, Clone, Copy, PartialEq, Eq, Structural)]
pub struct MotorPrebuf {
    pub target_vel: Scalar,
    pub target_pos: Scalar,
    pub stiffness: Scalar,
    pub damping: Scalar,
}

/// An axis-scoped setting: limits or one of the motor parameter groups.
#[derive(Debug, Clone, Copy, PartialEq, Eq, Structural)]
pub enum AdvancedSettings {
    NotSet,
    MotorModel(MotorModelPrebuf),
    MotorVelocity(MotorVelocityPrebuf),
    MotorPosition(MotorPositionPrebuf),
    Motor(MotorPrebuf),
    MotorMaxForce(Scalar),
    Limits(LimitsPrebuf),
}

/// A frame setting: a local axis or a local basis for either body.
#[derive(Debug, Clone, Copy, PartialEq, Eq, Structural)]
pub enum BasicSettings {
    NotSet,
    LocalAxis2(Axis),
    LocalAxis1(Axis),
    LocalBasic1(Quat),
    LocalBasic2(Quat),
}

/// An axis-scoped setting together with the degree of freedom it applies to.
#[derive(Debug, Clone, Copy, PartialEq, Eq, Structural)]
pub struct SphericalSettings {
    pub axis: JointAxisPrefab,
    pub setting: AdvancedSettings,
}

/// An ordered settings list; order matters, later entries win.
#[derive(Debug, Clone, PartialEq, Eq)]
pub struct List<T>(pub Vec<T>);

/// The authored description of a joint: one concrete variant at a time.
#[derive(Debug, Clone, PartialEq, Eq)]
pub enum GenericJointPrefab {
    FixedJoint { settings: Vec<BasicSettings> },
    PrismaticJoint {
        local_axis1: Axis,
        motor_settings: List<AdvancedSettings>,
        basic_settings: List<BasicSettings>,
    },
    RevoluteJoint { axis: Axis, settings: List<AdvancedSettings> },
    SphericalJoint(List<SphericalSettings>),
    RopeJoint { max_distance: Scalar, settings: List<AdvancedSettings> },
    SpringJoint {
        rest_length: Scalar,
        stiffness: Scalar,
        damping: Scalar,
        contacts_enabled: bool,
        motor_model: MotorModelPrebuf,
    },
    GenericJoint {
        locked_axes: List<JointAxisPrefab>,
        advanced_settings: List<SphericalSettings>,
        basis_settings: List<BasicSettings>,
    },
}

impl Default for GenericJointPrefab {
    /// A fixed joint with no settings.
    fn default() -> (p: GenericJointPrefab)
        ensures
            p matches GenericJointPrefab::FixedJoint { settings } && settings@ =~= Seq::<
                BasicSettings,
            >::empty(),
    {
        GenericJointPrefab::FixedJoint { settings: Vec::new() }
    }
}

/// Which joint variant a configuration was built from.
#[derive(Debug, Clone, Copy, PartialEq, Eq, Structural)]
pub enum JointKind {
    Fixed,
    Prismatic,
    Revolute,
    Spherical,
    Rope,
    Spring,
    Generic,
}

/// The motor state of one axis of a configured joint.
#[derive(Debug, Clone, Copy, PartialEq, Eq, Structural)]
pub struct MotorConf {
    pub model: MotorModelPrebuf,
    pub target_vel: Scalar,
    pub target_pos: Scalar,
    pub stiffness: Scalar,
    pub damping: Scalar,
    pub max_force: Scalar,
}

/// The configured state of one degree of freedom: optional limits, and a
/// motor once any motor setting has touched the axis.
#[derive(Debug, Clone, Copy, PartialEq, Eq)]
pub struct AxisConf {
    pub limits: Option<LimitsPrebuf>,
    pub motor: Option<MotorConf>,
}

/// Per-axis state for all six degrees of freedom.
#[derive(Debug, Clone, Copy, PartialEq, Eq)]
pub struct AxesConf {
    pub lin_x: AxisConf,
    pub lin_y: AxisConf,
    pub lin_z: AxisConf,
    pub ang_x: AxisConf,
    pub ang_y: AxisConf,
    pub ang_z: AxisConf,
}

/// Parameters of a spring joint.
#[derive(Debug, Clone, Copy, PartialEq, Eq, Structural)]
pub struct SpringConf {
    pub rest_length: Scalar,
    pub stiffness: Scalar,
    pub damping: Scalar,
    pub model: MotorModelPrebuf,
}

/// The fully translated joint: everything the engine's builder would have
/// been told, as plain data. Two descriptors configure the same joint exactly
/// when their configurations are equal.
#[derive(Debug, Clone, Copy, PartialEq, Eq)]
pub struct JointConfig {
    pub kind: JointKind,
    /// Locked degrees of freedom, one bit per [`JointAxisPrefab`] in
    /// declaration order starting at the lowest bit.
    pub locked_axes: u8,
    pub local_anchor1: Point3,
    pub local_anchor2: Point3,
    pub local_axis1: Option<Axis>,
    pub local_axis2: Option<Axis>,
    pub local_basis1: Option<Quat>,
    pub local_basis2: Option<Quat>,
    pub axes: AxesConf,
    pub rope_max_distance: Option<Scalar>,
    pub spring: Option<SpringConf>,
    pub contacts_enabled: bool,
}

/// The mask bit of one degree of freedom.
pub open spec fn axis_mask(a: JointAxisPrefab) -> u8 {
    match a {
        JointAxisPrefab::X => 0x01u8,
        JointAxisPrefab::Y => 0x02u8,
        JointAxisPrefab::Z => 0x04u8,
        JointAxisPrefab::AngX => 0x08u8,
        JointAxisPrefab::AngY => 0x10u8,
        JointAxisPrefab::AngZ => 0x20u8,
    }
}

impl JointAxisPrefab {
    /// The mask bit of this degree of freedom.
    pub fn mask(self) -> (m: u8)
        ensures
            m == axis_mask(self),
    {
        match self {
            JointAxisPrefab::X => 0x01,
            JointAxisPrefab::Y => 0x02,
            JointAxisPrefab::Z => 0x04,
            JointAxisPrefab::AngX => 0x08,
            JointAxisPrefab::AngY => 0x10,
            JointAxisPrefab::AngZ => 0x20,
        }
    }
}

/// The union of the mask bits of a locked-axis list; an empty list locks
/// nothing.
pub open spec fn locked_mask(l: Seq<JointAxisPrefab>) -> u8
    decreases l.len(),
{
    if l.len() == 0 {
        0u8
    } else {
        locked_mask(l.drop_last()) | axis_mask(l.last())
    }
}

/// A motor that no setting has touched yet: at rest, driven by the engine's
/// default acceleration-based model, and free to deliver unlimited force —
/// the engine's untouched motor caps force at the largest finite 32-bit
/// float, and no drive setting changes the cap.
pub open spec fn spec_motor_default() -> MotorConf {
    MotorConf {
        model: MotorModelPrebuf::AccelerationBased,
        target_vel: 0u32,
        target_pos: 0u32,
        stiffness: 0u32,
        damping: 0u32,
        max_force: 0x7F7F_FFFFu32,
    }
}

pub open spec fn motor_or_default(m: Option<MotorConf>) -> MotorConf {
    match m {
        Some(c) => c,
        None => spec_motor_default(),
    }
}

pub open spec fn axis_conf_default() -> AxisConf {
    AxisConf { limits: None, motor: None }
}

pub open spec fn axes_default() -> AxesConf {
    AxesConf {
        lin_x: axis_conf_default(),
        lin_y: axis_conf_default(),
        lin_z: axis_conf_default(),
        ang_x: axis_conf_default(),
        ang_y: axis_conf_default(),
        ang_z: axis_conf_default(),
    }
}

/// The state of one degree of freedom.
pub open spec fn axis_conf(axes: AxesConf, a: JointAxisPrefab) -> AxisConf {
    match a {
        JointAxisPrefab::X => axes.lin_x,
        JointAxisPrefab::Y => axes.lin_y,
        JointAxisPrefab::Z => axes.lin_z,
        JointAxisPrefab::AngX => axes.ang_x,
        JointAxisPrefab::AngY => axes.ang_y,
        JointAxisPrefab::AngZ => axes.ang_z,
    }
}

/// The per-axis state with one degree of freedom replaced.
pub open spec fn with_axis_conf(axes: AxesConf, a: JointAxisPrefab, v: AxisConf) -> AxesConf {
    match a {
        JointAxisPrefab::X => AxesConf { lin_x: v, ..axes },
        JointAxisPrefab::Y => AxesConf { lin_y: v, ..axes },
        JointAxisPrefab::Z => AxesConf { lin_z: v, ..axes },
        JointAxisPrefab::AngX => AxesConf { ang_x: v, ..axes },
        JointAxisPrefab::AngY => AxesConf { ang_y: v, ..axes },
        JointAxisPrefab::AngZ => AxesConf { ang_z: v, ..axes },
    }
}

/// A fresh configuration: the two anchors, nothing locked, no axis touched,
/// contacts enabled.
pub open spec fn config_seed(kind: JointKind, a1: Point3, a2: Point3) -> JointConfig {
    JointConfig {
        kind: kind,
        locked_axes: 0u8,
        local_anchor1: a1,
        local_anchor2: a2,
        local_axis1: None,
        local_axis2: None,
        local_basis1: None,
        local_basis2: None,
        axes: axes_default(),
        rope_max_distance: None,
        spring: None,
        contacts_enabled: true,
    }
}

/// One axis-scoped setting applied to one degree of freedom. `NotSet` is a
/// no-op; limits replace limits; each motor setting overwrites the motor
/// fields it carries, materializing the motor on first touch. As with the
/// engine's own motor setters, a velocity drive also zeroes the stiffness
/// and a position drive also zeroes the target velocity, so the last drive
/// entry decides how the axis is driven.
pub open spec fn apply_advanced(c: JointConfig, a: JointAxisPrefab, s: AdvancedSettings) -> JointConfig {
    let ax = axis_conf(c.axes, a);
    let base = motor_or_default(ax.motor);
    match s {
        AdvancedSettings::NotSet => c,
        AdvancedSettings::Limits(l) => JointConfig {
            axes: with_axis_conf(c.axes, a, AxisConf { limits: Some(l), ..ax }),
            ..c
        },
        AdvancedSettings::MotorModel(m) => JointConfig {
            axes: with_axis_conf(
                c.axes,
                a,
                AxisConf { motor: Some(MotorConf { model: m, ..base }), ..ax },
            ),
            ..c
        },
        AdvancedSettings::MotorVelocity(v) => JointConfig {
            axes: with_axis_conf(
                c.axes,
                a,
                AxisConf {
                    motor: Some(
                        MotorConf {
                            target_vel: v.target_vel,
                            damping: v.factor,
                            stiffness: 0u32,
                            ..base
                        },
                    ),
                    ..ax
                },
            ),
            ..c
        },
        AdvancedSettings::MotorPosition(p) => JointConfig {
            axes: with_axis_conf(
                c.axes,
                a,
                AxisConf {
                    motor: Some(
                        MotorConf {
                            target_pos: p.target_pos,
                            stiffness: p.stiffness,
                            damping: p.damping,
                            target_vel: 0u32,
                            ..base
                        },
                    ),
                    ..ax
                },
            ),
            ..c
        },
        AdvancedSettings::Motor(mo) => JointConfig {
            axes: with_axis_conf(
                c.axes,
                a,
                AxisConf {
                    motor: Some(
                        MotorConf {
                            target_vel: mo.target_vel,
                            target_pos: mo.target_pos,
                            stiffness: mo.stiffness,
                            damping: mo.damping,
                            ..base
                        },
                    ),
                    ..ax
                },
            ),
            ..c
        },
        AdvancedSettings::MotorMaxForce(f) => JointConfig {
            axes: with_axis_conf(
                c.axes,
                a,
                AxisConf { motor: Some(MotorConf { max_force: f, ..base }), ..ax },
            ),
            ..c
        },
    }
}

/// A fixed joint recognizes only the basis settings, and both act on the
/// first local basis.
pub open spec fn apply_basic_fixed(c: JointConfig, s: BasicSettings) -> JointConfig {
    match s {
        BasicSettings::LocalBasic1(q) => JointConfig { local_basis1: Some(q), ..c },
        BasicSettings::LocalBasic2(q) => JointConfig { local_basis1: Some(q), ..c },
        _ => c,
    }
}

/// A prismatic joint drives its sliding axis; the combined motor setting is
/// not recognized there.
pub open spec fn apply_advanced_prismatic(c: JointConfig, s: AdvancedSettings) -> JointConfig {
    match s {
        AdvancedSettings::Motor(_) => c,
        _ => apply_advanced(c, JointAxisPrefab::X, s),
    }
}

/// Of the frame settings, a prismatic joint recognizes only the second local
/// axis.
pub open spec fn apply_basic_prismatic(c: JointConfig, s: BasicSettings) -> JointConfig {
    match s {
        BasicSettings::LocalAxis2(a) => JointConfig { local_axis2: Some(a), ..c },
        _ => c,
    }
}

/// A revolute joint drives its hinge axis; every axis-scoped setting is
/// recognized.
pub open spec fn apply_advanced_revolute(c: JointConfig, s: AdvancedSettings) -> JointConfig {
    apply_advanced(c, JointAxisPrefab::AngX, s)
}

/// A rope joint drives its length axis; limits and the combined motor
/// setting are not recognized there.
pub open spec fn apply_advanced_rope(c: JointConfig, s: AdvancedSettings) -> JointConfig {
    match s {
        AdvancedSettings::Motor(_) => c,
        AdvancedSettings::Limits(_) => c,
        _ => apply_advanced(c, JointAxisPrefab::X, s),
    }
}

/// A frame setting on a fully generic joint: all four are recognized.
pub open spec fn apply_basic_generic(c: JointConfig, s: BasicSettings) -> JointConfig {
    match s {
        BasicSettings::NotSet => c,
        BasicSettings::LocalAxis1(a) => JointConfig { local_axis1: Some(a), ..c },
        BasicSettings::LocalAxis2(a) => JointConfig { local_axis2: Some(a), ..c },
        BasicSettings::LocalBasic1(q) => JointConfig { local_basis1: Some(q), ..c },
        BasicSettings::LocalBasic2(q) => JointConfig { local_basis2: Some(q), ..c },
    }
}

pub open spec fn fold_basic_fixed(c: JointConfig, l: Seq<BasicSettings>) -> JointConfig
    decreases l.len(),
{
    if l.len() == 0 {
        c
    } else {
        apply_basic_fixed(fold_basic_fixed(c, l.drop_last()), l.last())
    }
}

pub open spec fn fold_adv_prismatic(c: JointConfig, l: Seq<AdvancedSettings>) -> JointConfig
    decreases l.len(),
{
    if l.len() == 0 {
        c
    } else {
        apply_advanced_prismatic(fold_adv_prismatic(c, l.drop_last()), l.last())
    }
}

pub open spec fn fold_basic_prismatic(c: JointConfig, l: Seq<BasicSettings>) -> JointConfig
    decreases l.len(),
{
    if l.len() == 0 {
        c
    } else {
        apply_basic_prismatic(fold_basic_prismatic(c, l.drop_last()), l.last())
    }
}

pub open spec fn fold_adv_revolute(c: JointConfig, l: Seq<AdvancedSettings>) -> JointConfig
    decreases l.len(),
{
    if l.len() == 0 {
        c
    } else {
        apply_advanced_revolute(fold_adv_revolute(c, l.drop_last()), l.last())
    }
}

/// The axis-scoped fold shared by the spherical and generic variants.
pub open spec fn fold_axis_scoped(c: JointConfig, l: Seq<SphericalSettings>) -> JointConfig
    decreases l.len(),
{
    if l.len() == 0 {
        c
    } else {
        apply_advanced(fold_axis_scoped(c, l.drop_last()), l.last().axis, l.last().setting)
    }
}

pub open spec fn fold_adv_rope(c: JointConfig, l: Seq<AdvancedSettings>) -> JointConfig
    decreases l.len(),
{
    if l.len() == 0 {
        c
    } else {
        apply_advanced_rope(fold_adv_rope(c, l.drop_last()), l.last())
    }
}

pub open spec fn fold_basic_generic(c: JointConfig, l: Seq<BasicSettings>) -> JointConfig
    decreases l.len(),
{
    if l.len() == 0 {
        c
    } else {
        apply_basic_generic(fold_basic_generic(c, l.drop_last()), l.last())
    }
}

/// What [`GenericJointPrefab::as_joint`] returns: each variant seeds a
/// configuration and folds its ordered settings into it.
pub open spec fn spec_as_joint(p: GenericJointPrefab, a1: Point3, a2: Point3) -> JointConfig {
    match p {
        GenericJointPrefab::FixedJoint { settings } => fold_basic_fixed(
            config_seed(JointKind::Fixed, a1, a2),
            settings@,
        ),
        GenericJointPrefab::PrismaticJoint { local_axis1, motor_settings, basic_settings } => {
            let seed = JointConfig {
                local_axis1: Some(local_axis1),
                local_axis2: Some(local_axis1),
                ..config_seed(JointKind::Prismatic, a1, a2)
            };
            fold_basic_prismatic(fold_adv_prismatic(seed, motor_settings.0@), basic_settings.0@)
        },
        GenericJointPrefab::RevoluteJoint { axis, settings } => {
            let seed = JointConfig {
                local_axis1: Some(axis),
                local_axis2: Some(axis),
                ..config_seed(JointKind::Revolute, a1, a2)
            };
            fold_adv_revolute(seed, settings.0@)
        },
        GenericJointPrefab::SphericalJoint(settings) => fold_axis_scoped(
            config_seed(JointKind::Spherical, a1, a2),
            settings.0@,
        ),
        GenericJointPrefab::RopeJoint { max_distance, settings } => {
            let seed = JointConfig {
                rope_max_distance: Some(max_distance),
                ..config_seed(JointKind::Rope, a1, a2)
            };
            fold_adv_rope(seed, settings.0@)
        },
        GenericJointPrefab::SpringJoint {
            rest_length,
            stiffness,
            damping,
            contacts_enabled,
            motor_model,
        } => JointConfig {
            spring: Some(
                SpringConf { rest_length, stiffness, damping, model: motor_model },
            ),
            contacts_enabled: contacts_enabled,
            ..config_seed(JointKind::Spring, a1, a2)
        },
        GenericJointPrefab::GenericJoint { locked_axes, advanced_settings, basis_settings } => {
            let seed = JointConfig {
                locked_axes: locked_mask(locked_axes.0@),
                ..config_seed(JointKind::Generic, a1, a2)
            };
            fold_basic_generic(fold_axis_scoped(seed, advanced_settings.0@), basis_settings.0@)
        },
    }
}

/// A motor that no setting has touched yet.
fn motor_default() -> (m: MotorConf)
    ensures
        m == spec_motor_default(),
{
    MotorConf {
        model: MotorModelPrebuf::AccelerationBased,
        target_vel: 0,
        target_pos: 0,
        stiffness: 0,
        damping: 0,
        max_force: 0x7F7F_FFFF,
    }
}

fn axis_conf_get(axes: &AxesConf, a: JointAxisPrefab) -> (r: AxisConf)
    ensures
        r == axis_conf(*axes, a),
{
    match a {
        JointAxisPrefab::X => axes.lin_x,
        JointAxisPrefab::Y => axes.lin_y,
        JointAxisPrefab::Z => axes.lin_z,
        JointAxisPrefab::AngX => axes.ang_x,
        JointAxisPrefab::AngY => axes.ang_y,
        JointAxisPrefab::AngZ => axes.ang_z,
    }
}

fn axis_conf_set(axes: &mut AxesConf, a: JointAxisPrefab, v: AxisConf)
    ensures
        *final(axes) == with_axis_conf(*old(axes), a, v),
{
    match a {
        JointAxisPrefab::X => {
            axes.lin_x = v;
        },
        JointAxisPrefab::Y => {
            axes.lin_y = v;
        },
        JointAxisPrefab::Z => {
            axes.lin_z = v;
        },
        JointAxisPrefab::AngX => {
            axes.ang_x = v;
        },
        JointAxisPrefab::AngY => {
            axes.ang_y = v;
        },
        JointAxisPrefab::AngZ => {
            axes.ang_z = v;
        },
    }
}

/// Applies one axis-scoped setting to the configuration.
fn apply_advanced_at(c: &mut JointConfig, a: JointAxisPrefab, s: AdvancedSettings)
    ensures
        *final(c) == apply_advanced(*old(c), a, s),
{
    let ax = axis_conf_get(&c.axes, a);
    match s {
        AdvancedSettings::NotSet => {},
        AdvancedSettings::Limits(l) => {
            axis_conf_set(&mut c.axes, a, AxisConf { limits: Some(l), motor: ax.motor });
        },
        AdvancedSettings::MotorModel(m) => {
            let base = match ax.motor {
                Some(b) => b,
                None => motor_default(),
            };
            axis_conf_set(
                &mut c.axes,
                a,
                AxisConf { limits: ax.limits, motor: Some(MotorConf { model: m, ..base }) },
            );
        },
        AdvancedSettings::MotorVelocity(v) => {
            let base = match ax.motor {
                Some(b) => b,
                None => motor_default(),
            };
            axis_conf_set(
                &mut c.axes,
                a,
                AxisConf {
                    limits: ax.limits,
                    motor: Some(
                        MotorConf {
                            target_vel: v.target_vel,
                            damping: v.factor,
                            stiffness: 0,
                            ..base
                        },
                    ),
                },
            );
        },
        AdvancedSettings::MotorPosition(p) => {
            let base = match ax.motor {
                Some(b) => b,
                None => motor_default(),
            };
            axis_conf_set(
                &mut c.axes,
                a,
                AxisConf {
                    limits: ax.limits,
                    motor: Some(
                        MotorConf {
                            target_pos: p.target_pos,
                            stiffness: p.stiffness,
                            damping: p.damping,
                            target_vel: 0,
                            ..base
                        },
                    ),
                },
            );
        },
        AdvancedSettings::Motor(mo) => {
            let base = match ax.motor {
                Some(b) => b,
                None => motor_default(),
            };
            axis_conf_set(
                &mut c.axes,
                a,
                AxisConf {
                    limits: ax.limits,
                    motor: Some(
                        MotorConf {
                            target_vel: mo.target_vel,
                            target_pos: mo.target_pos,
                            stiffness: mo.stiffness,
                            damping: mo.damping,
                            ..base
                        },
                    ),
                },
            );
        },
        AdvancedSettings::MotorMaxForce(f) => {
            let base = match ax.motor {
                Some(b) => b,
                None => motor_default(),
            };
            axis_conf_set(
                &mut c.axes,
                a,
                AxisConf { limits: ax.limits, motor: Some(MotorConf { max_force: f, ..base }) },
            );
        },
    }
}

/// A fresh configuration seeded with the two anchors.
fn new_config(kind: JointKind, a1: Point3, a2: Point3) -> (c: JointConfig)
    ensures
        c == config_seed(kind, a1, a2),
{
    let empty_axis = AxisConf { limits: None, motor: None };
    JointConfig {
        kind: kind,
        locked_axes: 0,
        local_anchor1: a1,
        local_anchor2: a2,
        local_axis1: None,
        local_axis2: None,
        local_basis1: None,
        local_basis2: None,
        axes: AxesConf {
            lin_x: empty_axis,
            lin_y: empty_axis,
            lin_z: empty_axis,
            ang_x: empty_axis,
            ang_y: empty_axis,
            ang_z: empty_axis,
        },
        rope_max_distance: None,
        spring: None,
        contacts_enabled: true,
    }
}

impl GenericJointPrefab {
    /// Translates the descriptor and the two local anchors into the joint
    /// configuration the engine is to be given. Pure and total: settings a
    /// variant does not recognize are skipped.
    pub fn as_joint(&self, local_anchor1: Point3, local_anchor2: Point3) -> (j: JointConfig)
        ensures
            j == spec_as_joint(*self, local_anchor1, local_anchor2),
    {
        match self {
            GenericJointPrefab::FixedJoint { settings } => {
                let mut cfg = new_config(JointKind::Fixed, local_anchor1, local_anchor2);
                let ghost seed = cfg;
                let mut i: usize = 0;
                while i < settings.len()
                    invariant
                        i <= settings.len(),
                        cfg == fold_basic_fixed(seed, settings@.take(i as int)),
                    decreases settings.len() - i,
                {
                    match settings[i] {
                        BasicSettings::LocalBasic1(q) => {
                            cfg.local_basis1 = Some(q);
                        },
                        BasicSettings::LocalBasic2(q) => {
                            cfg.local_basis1 = Some(q);
                        },
                        _ => {},
                    }
                    proof {
                        assert(settings@.take(i as int + 1).drop_last() =~= settings@.take(
                            i as int,
                        ));
                    }
                    i = i + 1;
                }
                proof {
                    assert(settings@.take(settings@.len() as int) =~= settings@);
                }
                cfg
            },
            GenericJointPrefab::PrismaticJoint { local_axis1, motor_settings, basic_settings } => {
                let mut cfg = new_config(JointKind::Prismatic, local_anchor1, local_anchor2);
                cfg.local_axis1 = Some(*local_axis1);
                cfg.local_axis2 = Some(*local_axis1);
                let ghost seed = cfg;
                let mut i: usize = 0;
                while i < motor_settings.0.len()
                    invariant
                        i <= motor_settings.0.len(),
                        cfg == fold_adv_prismatic(seed, motor_settings.0@.take(i as int)),
                    decreases motor_settings.0.len() - i,
                {
                    match motor_settings.0[i] {
                        AdvancedSettings::Motor(_) => {},
                        s => apply_advanced_at(&mut cfg, JointAxisPrefab::X, s),
                    }
                    proof {
                        assert(motor_settings.0@.take(i as int + 1).drop_last()
                            =~= motor_settings.0@.take(i as int));
                    }
                    i = i + 1;
                }
                proof {
                    assert(motor_settings.0@.take(motor_settings.0@.len() as int)
                        =~= motor_settings.0@);
                }
                let ghost mid = cfg;
                let mut k: usize = 0;
                while k < basic_settings.0.len()
                    invariant
                        k <= basic_settings.0.len(),
                        cfg == fold_basic_prismatic(mid, basic_settings.0@.take(k as int)),
                    decreases basic_settings.0.len() - k,
                {
                    match basic_settings.0[k] {
                        BasicSettings::LocalAxis2(a) => {
                            cfg.local_axis2 = Some(a);
                        },
                        _ => {},
                    }
                    proof {
                        assert(basic_settings.0@.take(k as int + 1).drop_last()
                            =~= basic_settings.0@.take(k as int));
                    }
                    k = k + 1;
                }
                proof {
                    assert(basic_settings.0@.take(basic_settings.0@.len() as int)
                        =~= basic_settings.0@);
                }
                cfg
            },
            GenericJointPrefab::RevoluteJoint { axis, settings } => {
                let mut cfg = new_config(JointKind::Revolute, local_anchor1, local_anchor2);
                cfg.local_axis1 = Some(*axis);
                cfg.local_axis2 = Some(*axis);
                let ghost seed = cfg;
                let mut i: usize = 0;
                while i < settings.0.len()
                    invariant
                        i <= settings.0.len(),
                        cfg == fold_adv_revolute(seed, settings.0@.take(i as int)),
                    decreases settings.0.len() - i,
                {
                    apply_advanced_at(&mut cfg, JointAxisPrefab::AngX, settings.0[i]);
                    proof {
                        assert(settings.0@.take(i as int + 1).drop_last() =~= settings.0@.take(
                            i as int,
                        ));
                    }
                    i = i + 1;
                }
                proof {
                    assert(settings.0@.take(settings.0@.len() as int) =~= settings.0@);
                }
                cfg
            },
            GenericJointPrefab::SphericalJoint(settings) => {
                let mut cfg = new_config(JointKind::Spherical, local_anchor1, local_anchor2);
                let ghost seed = cfg;
                let mut i: usize = 0;
                while i < settings.0.len()
                    invariant
                        i <= settings.0.len(),
                        cfg == fold_axis_scoped(seed, settings.0@.take(i as int)),
                    decreases settings.0.len() - i,
                {
                    let s = settings.0[i];
                    apply_advanced_at(&mut cfg, s.axis, s.setting);
                    proof {
                        assert(settings.0@.take(i as int + 1).drop_last() =~= settings.0@.take(
                            i as int,
                        ));
                    }
                    i = i + 1;
                }
                proof {
                    assert(settings.0@.take(settings.0@.len() as int) =~= settings.0@);
                }
                cfg
            },
            GenericJointPrefab::RopeJoint { max_distance, settings } => {
                let mut cfg = new_config(JointKind::Rope, local_anchor1, local_anchor2);
                cfg.rope_max_distance = Some(*max_distance);
                let ghost seed = cfg;
                let mut i: usize = 0;
                while i < settings.0.len()
                    invariant
                        i <= settings.0.len(),
                        cfg == fold_adv_rope(seed, settings.0@.take(i as int)),
                    decreases settings.0.len() - i,
                {
                    match settings.0[i] {
                        AdvancedSettings::Motor(_) => {},
                        AdvancedSettings::Limits(_) => {},
                        s => apply_advanced_at(&mut cfg, JointAxisPrefab::X, s),
                    }
                    proof {
                        assert(settings.0@.take(i as int + 1).drop_last() =~= settings.0@.take(
                            i as int,
                        ));
                    }
                    i = i + 1;
                }
                proof {
                    assert(settings.0@.take(settings.0@.len() as int) =~= settings.0@);
                }
                cfg
            },
            GenericJointPrefab::SpringJoint {
                rest_length,
                stiffness,
                damping,
                contacts_enabled,
                motor_model,
            } => {
                let mut cfg = new_config(JointKind::Spring, local_anchor1, local_anchor2);
                cfg.spring = Some(
                    SpringConf {
                        rest_length: *rest_length,
                        stiffness: *stiffness,
                        damping: *damping,
                        model: *motor_model,
                    },
                );
                cfg.contacts_enabled = *contacts_enabled;
                cfg
            },
            GenericJointPrefab::GenericJoint {
                locked_axes,
                advanced_settings,
                basis_settings,
            } => {
                let mut cfg = new_config(JointKind::Generic, local_anchor1, local_anchor2);
                let mut mask: u8 = 0;
                let mut m: usize = 0;
                while m < locked_axes.0.len()
                    invariant
                        m <= locked_axes.0.len(),
                        mask == locked_mask(locked_axes.0@.take(m as int)),
                    decreases locked_axes.0.len() - m,
                {
                    mask = mask | locked_axes.0[m].mask();
                    proof {
                        assert(locked_axes.0@.take(m as int + 1).drop_last() =~= locked_axes.0@.take(
                            m as int,
                        ));
                    }
                    m = m + 1;
                }
                proof {
                    assert(locked_axes.0@.take(locked_axes.0@.len() as int) =~= locked_axes.0@);
                }
                cfg.locked_axes = mask;
                let ghost seed = cfg;
                let mut i: usize = 0;
                while i < advanced_settings.0.len()
                    invariant
                        i <= advanced_settings.0.len(),
                        cfg == fold_axis_scoped(seed, advanced_settings.0@.take(i as int)),
                    decreases advanced_settings.0.len() - i,
                {
                    let s = advanced_settings.0[i];
                    apply_advanced_at(&mut cfg, s.axis, s.setting);
                    proof {
                        assert(advanced_settings.0@.take(i as int + 1).drop_last()
                            =~= advanced_settings.0@.take(i as int));
                    }
                    i = i + 1;
                }
                proof {
                    assert(advanced_settings.0@.take(advanced_settings.0@.len() as int)
                        =~= advanced_settings.0@);
                }
                let ghost mid = cfg;
                let mut k: usize = 0;
                while k < basis_settings.0.len()
                    invariant
                        k <= basis_settings.0.len(),
                        cfg == fold_basic_generic(mid, basis_settings.0@.take(k as int)),
                    decreases basis_settings.0.len() - k,
                {
                    match basis_settings.0[k] {
                        BasicSettings::NotSet => {},
                        BasicSettings::LocalAxis1(a) => {
                            cfg.local_axis1 = Some(a);
                        },
                        BasicSettings::LocalAxis2(a) => {
                            cfg.local_axis2 = Some(a);
                        },
                        BasicSettings::LocalBasic1(q) => {
                            cfg.local_basis1 = Some(q);
                        },
                        BasicSettings::LocalBasic2(q) => {
                            cfg.local_basis2 = Some(q);
                        },
                    }
                    proof {
                        assert(basis_settings.0@.take(k as int + 1).drop_last()
                            =~= basis_settings.0@.take(k as int));
                    }
                    k = k + 1;
                }
                proof {
                    assert(basis_settings.0@.take(basis_settings.0@.len() as int)
                        =~= basis_settings.0@);
                }
                cfg
            },
        }
    }
}

/// The position of a degree of freedom in the mask, lowest bit first.
pub open spec fn axis_index(a: JointAxisPrefab) -> u8 {
    match a {
        JointAxisPrefab::X => 0u8,
        JointAxisPrefab::Y => 1u8,
        JointAxisPrefab::Z => 2u8,
        JointAxisPrefab::AngX => 3u8,
        JointAxisPrefab::AngY => 4u8,
        JointAxisPrefab::AngZ => 5u8,
    }
}

proof fn lemma_axis_mask_is_bit(a: JointAxisPrefab)
    ensures
        axis_mask(a) == 1u8 << axis_index(a),
{
    assert(1u8 << 0u8 == 0x01u8 && 1u8 << 1u8 == 0x02u8 && 1u8 << 2u8 == 0x04u8 && 1u8 << 3u8
        == 0x08u8 && 1u8 << 4u8 == 0x10u8 && 1u8 << 5u8 == 0x20u8) by (bit_vector);
}

proof fn lemma_axis_mask_disjoint(x: JointAxisPrefab, y: JointAxisPrefab)
    requires
        x != y,
    ensures
        axis_mask(x) & axis_mask(y) == 0,
{
    lemma_axis_mask_is_bit(x);
    lemma_axis_mask_is_bit(y);
    let i = axis_index(x);
    let j = axis_index(y);
    assert((1u8 << i) & (1u8 << j) == 0) by (bit_vector)
        requires
            i != j,
            i < 6,
            j < 6,
    ;
}

/// Locking the concatenation of two axis lists locks the union of what each
/// list locks on its own.
pub proof fn lemma_locked_mask_concat(a: Seq<JointAxisPrefab>, b: Seq<JointAxisPrefab>)
    ensures
        locked_mask(a + b) == locked_mask(a) | locked_mask(b),
    decreases b.len(),
{
    if b.len() == 0 {
        assert(a + b =~= a);
        let x = locked_mask(a);
        assert(x | 0u8 == x) by (bit_vector);
    } else {
        lemma_locked_mask_concat(a, b.drop_last());
        assert((a + b).drop_last() =~= a + b.drop_last());
        let x = locked_mask(a);
        let y = locked_mask(b.drop_last());
        let z = axis_mask(b.last());
        assert((x | y) | z == x | (y | z)) by (bit_vector);
    }
}

/// The locked-axis mask is exactly the union of the listed axes' bits: a
/// degree of freedom's bit is set in it when the list names that degree of
/// freedom, and clear when it does not; an empty list locks nothing.
pub proof fn lemma_locked_axis_union(l: Seq<JointAxisPrefab>, a: JointAxisPrefab)
    ensures
        locked_mask(l) & axis_mask(a) == if l.contains(a) {
            axis_mask(a)
        } else {
            0u8
        },
    decreases l.len(),
{
    if l.len() == 0 {
        let aa = axis_mask(a);
        assert(0u8 & aa == 0) by (bit_vector);
    } else {
        lemma_locked_axis_union(l.drop_last(), a);
        let m = locked_mask(l.drop_last());
        let la = axis_mask(l.last());
        let aa = axis_mask(a);
        if l.last() == a {
            assert(l.contains(a));
            assert((m | aa) & aa == aa) by (bit_vector);
        } else {
            lemma_axis_mask_disjoint(l.last(), a);
            if l.contains(a) {
                let i = choose|i: int| 0 <= i < l.len() && l[i] == a;
                assert(i < l.len() - 1);
                assert(l.drop_last()[i] == a);
                assert(l.drop_last().contains(a));
                assert((m | la) & aa == aa) by (bit_vector)
                    requires
                        m & aa == aa,
                        la & aa == 0,
                ;
            } else {
                assert(!l.drop_last().contains(a)) by {
                    if l.drop_last().contains(a) {
                        let i = choose|i: int| 0 <= i < l.drop_last().len() && l.drop_last()[i]
                            == a;
                        assert(l[i] == a);
                    }
                }
                assert((m | la) & aa == 0) by (bit_vector)
                    requires
                        m & aa == 0,
                        la & aa == 0,
                ;
            }
        }
    }
}

/// The last limits entry scoped to an axis, if the list holds one.
pub open spec fn last_limits(l: Seq<SphericalSettings>, a: JointAxisPrefab) -> Option<
    LimitsPrebuf,
>
    decreases l.len(),
{
    if l.len() == 0 {
        None
    } else if l.last().axis == a && l.last().setting is Limits {
        match l.last().setting {
            AdvancedSettings::Limits(lim) => Some(lim),
            _ => None,
        }
    } else {
        last_limits(l.drop_last(), a)
    }
}

/// Applying one axis-scoped setting changes the limits of an axis exactly
/// when the setting is a limits entry for that axis.
proof fn lemma_apply_advanced_limits(c: JointConfig, b: JointAxisPrefab, s: AdvancedSettings, a: JointAxisPrefab)
    ensures
        axis_conf(apply_advanced(c, b, s).axes, a).limits == if a == b && s is Limits {
            match s {
                AdvancedSettings::Limits(lim) => Some(lim),
                _ => None,
            }
        } else {
            axis_conf(c.axes, a).limits
        },
{
}

/// Last write wins for limits: after folding an axis-scoped settings list,
/// an axis's limits are those of the last limits entry scoped to it — or the
/// limits the configuration already held, if the list has none for it.
pub proof fn lemma_limits_last_write_wins(
    c: JointConfig,
    l: Seq<SphericalSettings>,
    a: JointAxisPrefab,
)
    ensures
        axis_conf(fold_axis_scoped(c, l).axes, a).limits == match last_limits(l, a) {
            Some(lim) => Some(lim),
            None => axis_conf(c.axes, a).limits,
        },
    decreases l.len(),
{
    if l.len() == 0 {
    } else {
        lemma_limits_last_write_wins(c, l.drop_last(), a);
        lemma_apply_advanced_limits(fold_axis_scoped(c, l.drop_last()), l.last().axis, l.last().setting, a);
    }
}

} // verus!
