use bdo_optimizer_launcher::cmd::CommandOutput;
use bdo_optimizer_launcher::system_info::{
    adapter_names, decode_description, fetch_system_info, parse_reg_sz_value, AdapterDesc,
};

#[test]
fn parse_reg_sz_intel() {
    let out = "\
\r
HKLM\\HARDWARE\\DESCRIPTION\\System\\CentralProcessor\\0\r
    ProcessorNameString    REG_SZ    Intel(R) Core(TM) i7-13700K\r
";
    assert_eq!(parse_reg_sz_value(out), Some("Intel(R) Core(TM) i7-13700K".to_string()));
}

#[test]
fn parse_reg_sz_amd_with_extra_spaces() {
    let out = "    ProcessorNameString\tREG_SZ\tAMD Ryzen 7 7800X3D 8-Core Processor";
    assert_eq!(parse_reg_sz_value(out), Some("AMD Ryzen 7 7800X3D 8-Core Processor".to_string()));
}

#[test]
fn parse_reg_sz_missing_none() {
    let out = "HKLM\\... no value here";
    assert_eq!(parse_reg_sz_value(out), None);
}

#[test]
fn parse_reg_sz_empty_after_keyword_none() {
    let out = "    ProcessorNameString    REG_SZ    \r\n";
    assert_eq!(parse_reg_sz_value(out), None);
}

#[test]
fn decode_description_null_terminated() {
    let mut buf = [0u16; 16];
    let s = "RTX 4070";
    for (i, c) in s.encode_utf16().enumerate() {
        buf[i] = c;
    }
    assert_eq!(decode_description(&buf), "RTX 4070");
}

#[test]
fn decode_description_full_buffer_no_null() {
    let s = "0123456789012345";
    let buf: Vec<u16> = s.encode_utf16().collect();
    assert_eq!(buf.len(), 16);
    assert_eq!(decode_description(&buf), s);
}

#[test]
fn decode_description_empty() {
    let buf: [u16; 0] = [];
    assert_eq!(decode_description(&buf), "");
}

fn adapter(software: bool, name: &str) -> AdapterDesc {
    let mut description: Vec<u16> = name.encode_utf16().collect();
    description.resize(128, 0);
    AdapterDesc { software, description }
}

#[test]
fn adapter_names_skip_software_empty_and_repeated_names() {
    let adapters = vec![
        adapter(false, "NVIDIA GeForce RTX 4070"),
        adapter(true, "Microsoft Basic Render Driver"),
        adapter(false, "  "),
        adapter(false, "NVIDIA GeForce RTX 4070"),
        adapter(false, "Intel(R) UHD Graphics 770"),
    ];
    assert_eq!(adapter_names(&adapters), vec!["NVIDIA GeForce RTX 4070", "Intel(R) UHD Graphics 770"]);
}

#[test]
fn system_info_reads_the_registry_and_falls_back_to_unknown() {
    let reg = |args: Vec<String>| {
        assert_eq!(args, vec!["query", "HKLM\\HARDWARE\\DESCRIPTION\\System\\CentralProcessor\\0", "/v", "ProcessorNameString"]);
        Ok(CommandOutput {
            success: true,
            stdout: b"    ProcessorNameString    REG_SZ    Intel(R) Core(TM) i9-14900K\r\n".to_vec(),
            stderr: Vec::new(),
        })
    };
    let info = fetch_system_info(&reg, &[adapter(false, "RTX 4090")]);
    assert_eq!(info.cpu_name, "Intel(R) Core(TM) i9-14900K");
    assert_eq!(info.gpu_names, vec!["RTX 4090"]);

    let failing = |_args: Vec<String>| -> Result<CommandOutput, String> { Err("no reg".into()) };
    assert_eq!(fetch_system_info(&failing, &[]).cpu_name, "Unknown CPU");
}
