use vstd::prelude::*;

verus! {

/// One virtual machine's attributes, as the resource graph reports them.
#[derive(Debug, Clone)]
pub struct VirtualMachine {
    /// The identifier that names this machine uniquely.
    pub vm_id: Option<String>,
    /// The machine's name; its lower-case form keys the result cache.
    pub vm_name: Option<String>,
    /// When the machine was created.
    pub created: Option<String>,
    /// The subscription that holds the machine.
    pub sub: Option<String>,
    /// The data-centre location of the machine.
    pub location: Option<String>,
    /// The resource group that holds the machine.
    pub rg: Option<String>,
    /// The machine's private IPv4 address, one byte per octet.
    pub private_ip: [u8; 4],
    /// The operating-system family (Linux or Windows).
    pub os_type: Option<String>,
    /// The operating-system distribution.
    pub os_name: Option<String>,
    /// The operating-system version.
    pub os_version: Option<String>,
    /// The current power state.
    pub powerstate: Option<String>,
    /// The machine size.
    pub vm_size: Option<String>,
    /// The primary virtual network the machine is attached to.
    pub virtual_network: Option<String>,
    /// The primary subnet the machine is attached to.
    pub subnet: Option<String>,
    /// The extensions installed on the machine, when they were asked for.
    pub extensions: Vec<VirtualMachineExtension>,
    /// The resource tags of the machine, when they were asked for.
    pub tags: Vec<AzureTag>,
}

impl Default for VirtualMachine {
    fn default() -> (r: Self)
        ensures
            r.vm_id is None,
            r.vm_name is None,
            r.created is None,
            r.sub is None,
            r.location is None,
            r.rg is None,
            r.os_type is None,
            r.os_name is None,
            r.os_version is None,
            r.powerstate is None,
            r.vm_size is None,
            r.virtual_network is None,
            r.subnet is None,
            r.private_ip@ == seq![0u8, 0u8, 0u8, 0u8],
            r.extensions@.len() == 0,
            r.tags@.len() == 0,
    {
        let r = VirtualMachine {
            vm_id: None,
            vm_name: None,
            created: None,
            sub: None,
            location: None,
            rg: None,
            private_ip: [0u8, 0u8, 0u8, 0u8],
            os_type: None,
            os_name: None,
            os_version: None,
            powerstate: None,
            vm_size: None,
            virtual_network: None,
            subnet: None,
            extensions: Vec::new(),
            tags: Vec::new(),
        };
        assert(r.private_ip@ =~= seq![0u8, 0u8, 0u8, 0u8]);
        r
    }
}

/// An extension installed on a virtual machine.
#[derive(Debug, Clone)]
pub struct VirtualMachineExtension {
    /// The extension's name.
    pub name: String,
    /// The extension's version.
    pub version: String,
}

impl Default for VirtualMachineExtension {
    fn default() -> (r: Self)
        ensures
            r.name@ == "XXX"@,
            r.version@ == "XXX"@,
    {
        VirtualMachineExtension { name: "XXX".to_owned(), version: "XXX".to_owned() }
    }
}

/// A resource tag: a key and its value.
#[derive(Debug, Clone)]
pub struct AzureTag {
    /// The tag's key.
    pub key: String,
    /// The tag's value.
    pub value: String,
}

impl Default for AzureTag {
    fn default() -> (r: Self)
        ensures
            r.key@ == "KEY_X"@,
            r.value@ == "VAL_X"@,
    {
        AzureTag { key: "KEY_X".to_owned(), value: "VAL_X".to_owned() }
    }
}

} // verus!
