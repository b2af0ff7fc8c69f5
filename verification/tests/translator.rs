use bevy_rapier3d_plugin::generic_joint::{
    AdvancedSettings, Axis, BasicSettings, GenericJointPrefab, JointAxisPrefab, JointKind,
    LimitsPrebuf, List, MotorModelPrebuf, MotorPositionPrebuf, MotorPrebuf, MotorVelocityPrebuf,
    SphericalSettings,
};
use bevy_rapier3d_plugin::math::{Point3, Quat, Scalar};

fn bits(v: f32) -> Scalar {
    v.to_bits()
}

fn point(x: f32, y: f32, z: f32) -> Point3 {
    Point3 { x: bits(x), y: bits(y), z: bits(z) }
}

fn limits(min: f32, max: f32) -> LimitsPrebuf {
    LimitsPrebuf { min: bits(min), max: bits(max) }
}

#[test]
fn limits_last_write_wins_on_one_axis() {
    let prefab = GenericJointPrefab::GenericJoint {
        locked_axes: List(vec![]),
        advanced_settings: List(vec![
            SphericalSettings {
                axis: JointAxisPrefab::X,
                setting: AdvancedSettings::Limits(limits(0.0, 1.0)),
            },
            SphericalSettings {
                axis: JointAxisPrefab::X,
                setting: AdvancedSettings::Limits(limits(2.0, 3.0)),
            },
        ]),
        basis_settings: List(vec![]),
    };
    let cfg = prefab.as_joint(point(0.0, 0.0, 0.0), point(0.0, 0.0, 0.0));
    assert_eq!(cfg.axes.lin_x.limits, Some(limits(2.0, 3.0)));
    assert_eq!(cfg.axes.lin_y.limits, None);
}

#[test]
fn locked_axes_mask_is_the_union_of_the_listed_bits() {
    let prefab = GenericJointPrefab::GenericJoint {
        locked_axes: List(vec![
            JointAxisPrefab::AngY,
            JointAxisPrefab::AngZ,
            JointAxisPrefab::X,
            JointAxisPrefab::Z,
        ]),
        advanced_settings: List(vec![]),
        basis_settings: List(vec![]),
    };
    let cfg = prefab.as_joint(point(0.0, 0.0, 0.0), point(0.0, 0.0, 0.0));
    assert_eq!(cfg.locked_axes, 0x10 | 0x20 | 0x01 | 0x04);
}

#[test]
fn empty_locked_axes_list_locks_nothing() {
    let prefab = GenericJointPrefab::GenericJoint {
        locked_axes: List(vec![]),
        advanced_settings: List(vec![]),
        basis_settings: List(vec![]),
    };
    let cfg = prefab.as_joint(point(0.0, 0.0, 0.0), point(0.0, 0.0, 0.0));
    assert_eq!(cfg.locked_axes, 0);
}

#[test]
fn revolute_motor_settings_merge_on_the_hinge_axis() {
    let prefab = GenericJointPrefab::RevoluteJoint {
        axis: Axis::Y,
        settings: List(vec![
            AdvancedSettings::MotorVelocity(MotorVelocityPrebuf {
                target_vel: bits(1.5),
                factor: bits(2.0),
            }),
            AdvancedSettings::MotorMaxForce(bits(5.0)),
        ]),
    };
    let cfg = prefab.as_joint(point(0.0, 0.0, 0.0), point(1.0, 0.0, 0.0));
    assert_eq!(cfg.kind, JointKind::Revolute);
    assert_eq!(cfg.local_axis1, Some(Axis::Y));
    assert_eq!(cfg.local_axis2, Some(Axis::Y));
    let motor = cfg.axes.ang_x.motor.expect("motor must be configured");
    assert_eq!(motor.model, MotorModelPrebuf::AccelerationBased);
    assert_eq!(motor.target_vel, bits(1.5));
    assert_eq!(motor.damping, bits(2.0));
    assert_eq!(motor.target_pos, bits(0.0));
    assert_eq!(motor.stiffness, bits(0.0));
    assert_eq!(motor.max_force, bits(5.0));
    assert_eq!(cfg.local_anchor1, point(0.0, 0.0, 0.0));
    assert_eq!(cfg.local_anchor2, point(1.0, 0.0, 0.0));
}

#[test]
fn revolute_combined_motor_overrides_earlier_position_drive() {
    let prefab = GenericJointPrefab::RevoluteJoint {
        axis: Axis::X,
        settings: List(vec![
            AdvancedSettings::MotorPosition(MotorPositionPrebuf {
                target_pos: bits(9.0),
                stiffness: bits(8.0),
                damping: bits(7.0),
            }),
            AdvancedSettings::Motor(MotorPrebuf {
                target_vel: bits(1.0),
                target_pos: bits(2.0),
                stiffness: bits(3.0),
                damping: bits(4.0),
            }),
        ]),
    };
    let cfg = prefab.as_joint(point(0.0, 0.0, 0.0), point(0.0, 0.0, 0.0));
    let motor = cfg.axes.ang_x.motor.expect("motor must be configured");
    assert_eq!(motor.target_vel, bits(1.0));
    assert_eq!(motor.target_pos, bits(2.0));
    assert_eq!(motor.stiffness, bits(3.0));
    assert_eq!(motor.damping, bits(4.0));
}

#[test]
fn an_untouched_motor_force_cap_is_the_engine_unlimited_default() {
    let prefab = GenericJointPrefab::RevoluteJoint {
        axis: Axis::X,
        settings: List(vec![AdvancedSettings::MotorVelocity(MotorVelocityPrebuf {
            target_vel: bits(2.0),
            factor: bits(0.5),
        })]),
    };
    let cfg = prefab.as_joint(point(0.0, 0.0, 0.0), point(0.0, 0.0, 0.0));
    let motor = cfg.axes.ang_x.motor.expect("motor must be configured");
    // No max-force entry: the motor stays free to deliver unlimited force.
    assert_eq!(motor.max_force, bits(f32::MAX));
}

#[test]
fn a_velocity_drive_zeroes_an_earlier_stiffness() {
    let prefab = GenericJointPrefab::RevoluteJoint {
        axis: Axis::X,
        settings: List(vec![
            AdvancedSettings::MotorPosition(MotorPositionPrebuf {
                target_pos: bits(2.0),
                stiffness: bits(8.0),
                damping: bits(7.0),
            }),
            AdvancedSettings::MotorVelocity(MotorVelocityPrebuf {
                target_vel: bits(1.0),
                factor: bits(3.0),
            }),
        ]),
    };
    let cfg = prefab.as_joint(point(0.0, 0.0, 0.0), point(0.0, 0.0, 0.0));
    let motor = cfg.axes.ang_x.motor.expect("motor must be configured");
    assert_eq!(motor.target_vel, bits(1.0));
    assert_eq!(motor.damping, bits(3.0));
    assert_eq!(motor.stiffness, bits(0.0));
    assert_eq!(motor.target_pos, bits(2.0));
}

#[test]
fn a_position_drive_zeroes_an_earlier_target_velocity() {
    let prefab = GenericJointPrefab::RevoluteJoint {
        axis: Axis::X,
        settings: List(vec![
            AdvancedSettings::MotorVelocity(MotorVelocityPrebuf {
                target_vel: bits(5.0),
                factor: bits(1.0),
            }),
            AdvancedSettings::MotorPosition(MotorPositionPrebuf {
                target_pos: bits(2.0),
                stiffness: bits(8.0),
                damping: bits(7.0),
            }),
        ]),
    };
    let cfg = prefab.as_joint(point(0.0, 0.0, 0.0), point(0.0, 0.0, 0.0));
    let motor = cfg.axes.ang_x.motor.expect("motor must be configured");
    assert_eq!(motor.target_vel, bits(0.0));
    assert_eq!(motor.target_pos, bits(2.0));
    assert_eq!(motor.stiffness, bits(8.0));
    assert_eq!(motor.damping, bits(7.0));
}

#[test]
fn prismatic_ignores_combined_motor_and_takes_second_axis() {
    let prefab = GenericJointPrefab::PrismaticJoint {
        local_axis1: Axis::Z,
        motor_settings: List(vec![
            AdvancedSettings::Motor(MotorPrebuf {
                target_vel: bits(1.0),
                target_pos: bits(2.0),
                stiffness: bits(3.0),
                damping: bits(4.0),
            }),
            AdvancedSettings::Limits(limits(-1.0, 1.0)),
        ]),
        basic_settings: List(vec![BasicSettings::LocalAxis2(Axis::NegZ)]),
    };
    let cfg = prefab.as_joint(point(0.0, 0.0, 0.0), point(0.0, 0.0, 0.0));
    assert_eq!(cfg.kind, JointKind::Prismatic);
    // The combined motor entry is not recognized by this variant.
    assert_eq!(cfg.axes.lin_x.motor, None);
    assert_eq!(cfg.axes.lin_x.limits, Some(limits(-1.0, 1.0)));
    assert_eq!(cfg.local_axis1, Some(Axis::Z));
    assert_eq!(cfg.local_axis2, Some(Axis::NegZ));
}

#[test]
fn rope_ignores_limits_and_keeps_max_distance() {
    let prefab = GenericJointPrefab::RopeJoint {
        max_distance: bits(4.5),
        settings: List(vec![
            AdvancedSettings::Limits(limits(0.0, 1.0)),
            AdvancedSettings::MotorModel(MotorModelPrebuf::ForceBased),
        ]),
    };
    let cfg = prefab.as_joint(point(0.0, 0.0, 0.0), point(0.0, 0.0, 0.0));
    assert_eq!(cfg.kind, JointKind::Rope);
    assert_eq!(cfg.rope_max_distance, Some(bits(4.5)));
    assert_eq!(cfg.axes.lin_x.limits, None);
    let motor = cfg.axes.lin_x.motor.expect("motor model must be configured");
    assert_eq!(motor.model, MotorModelPrebuf::ForceBased);
}

#[test]
fn spring_joint_carries_its_parameters() {
    let prefab = GenericJointPrefab::SpringJoint {
        rest_length: bits(0.5),
        stiffness: bits(100.0),
        damping: bits(3.0),
        contacts_enabled: false,
        motor_model: MotorModelPrebuf::ForceBased,
    };
    let cfg = prefab.as_joint(point(0.0, 1.0, 0.0), point(0.0, -1.0, 0.0));
    assert_eq!(cfg.kind, JointKind::Spring);
    let spring = cfg.spring.expect("spring parameters must be kept");
    assert_eq!(spring.rest_length, bits(0.5));
    assert_eq!(spring.stiffness, bits(100.0));
    assert_eq!(spring.damping, bits(3.0));
    assert_eq!(spring.model, MotorModelPrebuf::ForceBased);
    assert!(!cfg.contacts_enabled);
}

#[test]
fn fixed_joint_routes_both_basis_settings_to_the_first_basis() {
    let q1 = Quat { x: bits(0.0), y: bits(0.0), z: bits(0.0), w: bits(1.0) };
    let q2 = Quat { x: bits(0.5), y: bits(0.5), z: bits(0.5), w: bits(0.5) };
    let prefab = GenericJointPrefab::FixedJoint {
        settings: vec![BasicSettings::LocalBasic1(q1), BasicSettings::LocalBasic2(q2)],
    };
    let cfg = prefab.as_joint(point(0.0, 0.0, 0.0), point(0.0, 0.0, 0.0));
    assert_eq!(cfg.kind, JointKind::Fixed);
    assert_eq!(cfg.local_basis1, Some(q2));
    assert_eq!(cfg.local_basis2, None);
}

#[test]
fn spherical_settings_land_on_their_own_axes() {
    let prefab = GenericJointPrefab::SphericalJoint(List(vec![
        SphericalSettings {
            axis: JointAxisPrefab::AngY,
            setting: AdvancedSettings::Limits(limits(-0.5, 0.5)),
        },
        SphericalSettings {
            axis: JointAxisPrefab::AngZ,
            setting: AdvancedSettings::MotorMaxForce(bits(12.0)),
        },
        SphericalSettings { axis: JointAxisPrefab::AngY, setting: AdvancedSettings::NotSet },
    ]));
    let cfg = prefab.as_joint(point(0.0, 0.0, 0.0), point(0.0, 0.0, 0.0));
    assert_eq!(cfg.kind, JointKind::Spherical);
    assert_eq!(cfg.axes.ang_y.limits, Some(limits(-0.5, 0.5)));
    assert_eq!(cfg.axes.ang_y.motor, None);
    let motor = cfg.axes.ang_z.motor.expect("max force must configure the motor");
    assert_eq!(motor.max_force, bits(12.0));
    assert_eq!(cfg.axes.ang_z.limits, None);
}

#[test]
fn the_default_descriptor_is_a_bare_fixed_joint() {
    let prefab = GenericJointPrefab::default();
    let cfg = prefab.as_joint(point(0.0, 0.0, 0.0), point(0.0, 0.0, 0.0));
    assert_eq!(cfg.kind, JointKind::Fixed);
    assert_eq!(cfg.local_basis1, None);
    assert_eq!(cfg.locked_axes, 0);
    assert!(cfg.contacts_enabled);
}

#[test]
fn axis_masks_are_distinct_single_bits() {
    let all = [
        JointAxisPrefab::X,
        JointAxisPrefab::Y,
        JointAxisPrefab::Z,
        JointAxisPrefab::AngX,
        JointAxisPrefab::AngY,
        JointAxisPrefab::AngZ,
    ];
    let mut seen: u8 = 0;
    for a in all {
        let m = a.mask();
        assert_eq!(m.count_ones(), 1);
        assert_eq!(seen & m, 0);
        seen |= m;
    }
    assert_eq!(seen, 0x3F);
}
