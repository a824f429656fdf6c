use ethercat_hal::el7031_0030::EL7031_0030PredefinedPdoAssignment;

#[test]
fn test_pdo_assignment_velocity_control_compact() {
    let pdo_assignment = EL7031_0030PredefinedPdoAssignment::VelocityControlCompact;
    let txpdo = pdo_assignment.txpdo_assignment();
    let rxpdo = pdo_assignment.rxpdo_assignment();

    assert_eq!(txpdo.size(), 16 * 8);
    assert_eq!(rxpdo.size(), 8 * 8);
}

#[test]
fn test_pdo_assignment_velocity_control_compact_with_info_data() {
    let pdo_assignment = EL7031_0030PredefinedPdoAssignment::VelocityControlCompactWithInfoData;
    let txpdo = pdo_assignment.txpdo_assignment();
    let rxpdo = pdo_assignment.rxpdo_assignment();

    assert_eq!(txpdo.size(), 20 * 8);
    assert_eq!(rxpdo.size(), 8 * 8);
}

#[test]
fn test_pdo_assignment_velocity_control() {
    let pdo_assignment = EL7031_0030PredefinedPdoAssignment::VelocityControl;
    let txpdo = pdo_assignment.txpdo_assignment();
    let rxpdo = pdo_assignment.rxpdo_assignment();

    assert_eq!(txpdo.size(), 20 * 8);
    assert_eq!(rxpdo.size(), 10 * 8);
}

#[test]
fn test_pdo_assignment_position_control() {
    let pdo_assignment = EL7031_0030PredefinedPdoAssignment::PositionControl;
    let txpdo = pdo_assignment.txpdo_assignment();
    let rxpdo = pdo_assignment.rxpdo_assignment();

    assert_eq!(txpdo.size(), 20 * 8);
    assert_eq!(rxpdo.size(), 12 * 8);
}

#[test]
fn test_pdo_assignment_position_interface_compact() {
    let pdo_assignment = EL7031_0030PredefinedPdoAssignment::PositionInterfaceCompact;
    let txpdo = pdo_assignment.txpdo_assignment();
    let rxpdo = pdo_assignment.rxpdo_assignment();

    assert_eq!(txpdo.size(), 22 * 8);
    assert_eq!(rxpdo.size(), 14 * 8);
}

#[test]
fn test_pdo_assignment_position_interface() {
    let pdo_assignment = EL7031_0030PredefinedPdoAssignment::PositionInterface;
    let txpdo = pdo_assignment.txpdo_assignment();
    let rxpdo = pdo_assignment.rxpdo_assignment();

    assert_eq!(txpdo.size(), 32 * 8);
    assert_eq!(rxpdo.size(), 22 * 8);
}

#[test]
fn test_pdo_assignment_position_interface_with_info_data() {
    let pdo_assignment = EL7031_0030PredefinedPdoAssignment::PositionInterfaceWithInfoData;
    let txpdo = pdo_assignment.txpdo_assignment();
    let rxpdo = pdo_assignment.rxpdo_assignment();

    assert_eq!(txpdo.size(), 36 * 8);
    assert_eq!(rxpdo.size(), 22 * 8);
}

#[test]
fn test_pdo_assignment_position_interface_auto_start() {
    let pdo_assignment = EL7031_0030PredefinedPdoAssignment::PositionInterfaceAutoStart;
    let txpdo = pdo_assignment.txpdo_assignment();
    let rxpdo = pdo_assignment.rxpdo_assignment();

    assert_eq!(txpdo.size(), 32 * 8);
    assert_eq!(rxpdo.size(), 36 * 8);
}

#[test]
fn test_pdo_assignment_position_interface_auto_start_with_info_data() {
    let pdo_assignment =
        EL7031_0030PredefinedPdoAssignment::PositionInterfaceAutoStartWithInfoData;
    let txpdo = pdo_assignment.txpdo_assignment();
    let rxpdo = pdo_assignment.rxpdo_assignment();

    assert_eq!(txpdo.size(), 36 * 8);
    assert_eq!(rxpdo.size(), 36 * 8);
}

#[test]
fn default_assignment_is_position_control() {
    let assignment = EL7031_0030PredefinedPdoAssignment::default();
    assert_eq!(assignment, EL7031_0030PredefinedPdoAssignment::PositionControl);
}
