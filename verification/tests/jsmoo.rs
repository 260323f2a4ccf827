use loki_gb::gb::bus::Bus;
use loki_gb::gb::cpu::CPU;
use loki_gb::gb::emu::GameboyEmulator;
use loki_gb::gb::utils::{Register, RegisterPair};
use serde_json::Value;

/// Single-step vectors in the layout of the Jsmoo suite: the registers and
/// the touched RAM before and after one instruction, and one entry per
/// machine cycle.
const VECTORS: &str = r#"[
{"name":"00 0000","initial":{"pc":19935,"sp":59438,"a":138,"b":72,"c":232,"d":238,"e":232,"f":208,"h":224,"l":98,"ime":0,"ie":1,"ram":[[19935,0]]},
 "final":{"a":138,"b":72,"c":232,"d":238,"e":232,"f":208,"h":224,"l":98,"pc":19936,"sp":59438,"ime":0,"ram":[[19935,0]]},
 "cycles":[[19935,0,"read"]]},
{"name":"80 0000","initial":{"pc":256,"sp":65534,"a":58,"b":198,"c":0,"d":0,"e":0,"f":0,"h":0,"l":0,"ime":0,"ie":0,"ram":[[256,128]]},
 "final":{"a":0,"b":198,"c":0,"d":0,"e":0,"f":176,"h":0,"l":0,"pc":257,"sp":65534,"ime":0,"ram":[[256,128]]},
 "cycles":[[256,128,"read"]]},
{"name":"06 0000","initial":{"pc":49152,"sp":1,"a":1,"b":2,"c":3,"d":4,"e":5,"f":240,"h":6,"l":7,"ime":0,"ie":0,"ram":[[49152,6],[49153,66]]},
 "final":{"a":1,"b":66,"c":3,"d":4,"e":5,"f":240,"h":6,"l":7,"pc":49154,"sp":1,"ime":0,"ram":[[49152,6],[49153,66]]},
 "cycles":[[49152,6,"read"],[49153,66,"read"]]},
{"name":"c5 0000","initial":{"pc":512,"sp":65534,"a":0,"b":18,"c":52,"d":0,"e":0,"f":0,"h":0,"l":0,"ime":0,"ie":0,"ram":[[512,197]]},
 "final":{"a":0,"b":18,"c":52,"d":0,"e":0,"f":0,"h":0,"l":0,"pc":513,"sp":65532,"ime":0,"ram":[[512,197],[65532,52],[65533,18]]},
 "cycles":[[512,197,"read"],[512,null,"---"],[65533,18,"write"],[65532,52,"write"]]},
{"name":"c1 0000","initial":{"pc":513,"sp":65532,"a":0,"b":0,"c":0,"d":0,"e":0,"f":0,"h":0,"l":0,"ime":0,"ie":0,"ram":[[513,193],[65532,52],[65533,18]]},
 "final":{"a":0,"b":18,"c":52,"d":0,"e":0,"f":0,"h":0,"l":0,"pc":514,"sp":65534,"ime":0,"ram":[[513,193],[65532,52],[65533,18]]},
 "cycles":[[513,193,"read"],[65532,52,"read"],[65533,18,"read"]]},
{"name":"34 0000","initial":{"pc":1000,"sp":0,"a":0,"b":0,"c":0,"d":0,"e":0,"f":16,"h":192,"l":0,"ime":0,"ie":0,"ram":[[1000,52],[49152,15]]},
 "final":{"a":0,"b":0,"c":0,"d":0,"e":0,"f":48,"h":192,"l":0,"pc":1001,"sp":0,"ime":0,"ram":[[1000,52],[49152,16]]},
 "cycles":[[1000,52,"read"],[49152,15,"read"],[49152,16,"write"]]},
{"name":"cd 0000","initial":{"pc":4660,"sp":53248,"a":0,"b":0,"c":0,"d":0,"e":0,"f":0,"h":0,"l":0,"ime":0,"ie":0,"ram":[[4660,205],[4661,120],[4662,86]]},
 "final":{"a":0,"b":0,"c":0,"d":0,"e":0,"f":0,"h":0,"l":0,"pc":22136,"sp":53246,"ime":0,"ram":[[4660,205],[4661,120],[4662,86],[53246,55],[53247,18]]},
 "cycles":[[4660,205,"read"],[4661,120,"read"],[4662,86,"read"],[4662,null,"---"],[53247,18,"write"],[53246,55,"write"]]},
{"name":"20 0000","initial":{"pc":300,"sp":0,"a":0,"b":0,"c":0,"d":0,"e":0,"f":0,"h":0,"l":0,"ime":0,"ie":0,"ram":[[300,32],[301,251]]},
 "final":{"a":0,"b":0,"c":0,"d":0,"e":0,"f":0,"h":0,"l":0,"pc":297,"sp":0,"ime":0,"ram":[[300,32],[301,251]]},
 "cycles":[[300,32,"read"],[301,251,"read"],[301,null,"---"]]},
{"name":"20 0001","initial":{"pc":300,"sp":0,"a":0,"b":0,"c":0,"d":0,"e":0,"f":128,"h":0,"l":0,"ime":0,"ie":0,"ram":[[300,32],[301,251]]},
 "final":{"a":0,"b":0,"c":0,"d":0,"e":0,"f":128,"h":0,"l":0,"pc":302,"sp":0,"ime":0,"ram":[[300,32],[301,251]]},
 "cycles":[[300,32,"read"],[301,251,"read"]]},
{"name":"cb 37 0000","initial":{"pc":65000,"sp":0,"a":165,"b":0,"c":0,"d":0,"e":0,"f":240,"h":0,"l":0,"ime":0,"ie":0,"ram":[[65000,203],[65001,55]]},
 "final":{"a":90,"b":0,"c":0,"d":0,"e":0,"f":0,"h":0,"l":0,"pc":65002,"sp":0,"ime":0,"ram":[[65000,203],[65001,55]]},
 "cycles":[[65000,203,"read"],[65001,55,"read"]]},
{"name":"27 0000","initial":{"pc":0,"sp":0,"a":125,"b":56,"c":0,"d":0,"e":0,"f":0,"h":0,"l":0,"ime":0,"ie":0,"ram":[[0,39]]},
 "final":{"a":131,"b":56,"c":0,"d":0,"e":0,"f":0,"h":0,"l":0,"pc":1,"sp":0,"ime":0,"ram":[[0,39]]},
 "cycles":[[0,39,"read"]]},
{"name":"e8 0000","initial":{"pc":65534,"sp":255,"a":0,"b":0,"c":0,"d":0,"e":0,"f":240,"h":0,"l":0,"ime":0,"ie":0,"ram":[[65534,232],[65535,1]]},
 "final":{"a":0,"b":0,"c":0,"d":0,"e":0,"f":48,"h":0,"l":0,"pc":0,"sp":256,"ime":0,"ram":[[65534,232],[65535,1]]},
 "cycles":[[65534,232,"read"],[65535,1,"read"],[65535,null,"---"],[65535,null,"---"]]},
{"name":"f1 0000","initial":{"pc":100,"sp":40000,"a":0,"b":0,"c":0,"d":0,"e":0,"f":0,"h":0,"l":0,"ime":0,"ie":0,"ram":[[100,241],[40000,255],[40001,171]]},
 "final":{"a":171,"b":0,"c":0,"d":0,"e":0,"f":240,"h":0,"l":0,"pc":101,"sp":40002,"ime":0,"ram":[[100,241],[40000,255],[40001,171]]},
 "cycles":[[100,241,"read"],[40000,255,"read"],[40001,171,"read"]]},
{"name":"08 0000","initial":{"pc":10,"sp":4660,"a":0,"b":0,"c":0,"d":0,"e":0,"f":0,"h":0,"l":0,"ime":0,"ie":0,"ram":[[10,8],[11,255],[12,255]]},
 "final":{"a":0,"b":0,"c":0,"d":0,"e":0,"f":0,"h":0,"l":0,"pc":13,"sp":4660,"ime":0,"ram":[[10,8],[11,255],[12,255],[65535,52],[0,18]]},
 "cycles":[[10,8,"read"],[11,255,"read"],[12,255,"read"],[65535,52,"write"],[0,18,"write"]]},
{"name":"9e 0000","initial":{"pc":2,"sp":0,"a":59,"b":0,"c":0,"d":0,"e":0,"f":16,"h":128,"l":1,"ime":0,"ie":0,"ram":[[2,158],[32769,79]]},
 "final":{"a":235,"b":0,"c":0,"d":0,"e":0,"f":112,"h":128,"l":1,"pc":3,"sp":0,"ime":0,"ram":[[2,158],[32769,79]]},
 "cycles":[[2,158,"read"],[32769,79,"read"]]}
]"#;

fn number(state: &Value, name: &str) -> u16 {
    state[name].as_u64().unwrap() as u16
}

fn ram(state: &Value) -> Vec<(u16, u8)> {
    state["ram"]
        .as_array()
        .unwrap()
        .iter()
        .map(|cell| (cell[0].as_u64().unwrap() as u16, cell[1].as_u64().unwrap() as u8))
        .collect()
}

fn cpu(state: &Value) -> CPU {
    CPU::new(
        number(state, "a") as u8,
        number(state, "f") as u8,
        number(state, "b") as u8,
        number(state, "c") as u8,
        number(state, "d") as u8,
        number(state, "e") as u8,
        number(state, "h") as u8,
        number(state, "l") as u8,
        number(state, "pc"),
        number(state, "sp"),
    )
}

fn emulator(state: &Value) -> GameboyEmulator {
    let mut emu = GameboyEmulator::new_flat(cpu(state));
    for (address, value) in ram(state) {
        Bus::write(&mut emu, address, value);
    }
    emu
}

#[test]
fn jsmoo_instruction_tests() {
    let tests: Value = serde_json::from_str(VECTORS).unwrap();
    let tests = tests.as_array().unwrap();
    assert_eq!(tests.len(), 15);
    for test in tests {
        let name = test["name"].as_str().unwrap();
        let mut emu = emulator(&test["initial"]);
        for _ in 0..test["cycles"].as_array().unwrap().len() {
            emu.step();
        }
        assert!(emu.current_instruction.has_completed(), "Jsmoo test {name} has not ended");
        let expected = cpu(&test["final"]);
        assert_eq!(emu.cpu, expected, "Jsmoo test {name} failed");
        assert_eq!(emu.cpu.get_register_pair(RegisterPair::PC), number(&test["final"], "pc"));
        assert_eq!(emu.cpu.get_register(Register::F), number(&test["final"], "f") as u8);
        for (address, value) in ram(&test["final"]) {
            assert_eq!(Bus::read(&emu, address), value, "Jsmoo test {name} failed at {address:#06X}");
        }
    }
}
