//! Servers as the provider reports them, and the requests that create,
//! start, stop, restart and modify them.

use vstd::prelude::*;
use crate::text::{yes_no, yes_no_text};
use crate::types::common::{Label, Labels, Tags};

verus! {

pub const SERVER_STATE_STARTED: &'static str = "started";

pub const SERVER_STATE_STOPPED: &'static str = "stopped";

pub const SERVER_STATE_MAINTENANCE: &'static str = "maintenance";

pub const SERVER_STATE_ERROR: &'static str = "error";

pub const VIDEO_MODEL_VGA: &'static str = "vga";

pub const VIDEO_MODEL_CIRRUS: &'static str = "cirrus";

pub const NIC_MODEL_E1000: &'static str = "e1000";

pub const NIC_MODEL_VIRTIO: &'static str = "virtio";

pub const NIC_MODEL_RTL8139: &'static str = "rtl8139";

pub const STOP_TYPE_SOFT: &'static str = "soft";

pub const STOP_TYPE_HARD: &'static str = "hard";

pub const PASSWORD_DELIVERY_NONE: &'static str = "none";

pub const PASSWORD_DELIVERY_EMAIL: &'static str = "email";

pub const PASSWORD_DELIVERY_SMS: &'static str = "sms";

pub const CREATE_SERVER_STORAGE_DEVICE_ACTION_CREATE: &'static str = "create";

pub const CREATE_SERVER_STORAGE_DEVICE_ACTION_CLONE: &'static str = "clone";

pub const CREATE_SERVER_STORAGE_DEVICE_ACTION_ATTACH: &'static str = "attach";

/// Title given to the disk cloned from a template.
pub const SYSTEM_DISK_TITLE: &'static str = "System Disk";

/// Envelope of the answer to a list call.
#[derive(Debug)]
pub struct GetServerResponse {
    pub servers: ServerList,
}

/// Envelope of the answer to a details call.
#[derive(Debug)]
pub struct GetServerDetailsResponse {
    pub server: ServerDetails,
}

/// Envelope of the answer to a create call.
#[derive(Debug)]
pub struct CreateServerResponse {
    pub server: ServerDetails,
}

/// The servers of an account.
#[derive(Debug)]
pub struct ServerList {
    pub server: Vec<Server>,
}

/// What every listing says of a server.
#[derive(Debug, Default)]
pub struct Server {
    pub core_number: Option<String>,
    pub created: Option<i64>,
    pub host: i64,
    pub hostname: String,
    pub labels: Labels,
    /// Licence fee. The provider reports a decimal number; it is kept here
    /// as the 64 bits of its IEEE 754 binary form, so that nothing is lost.
    pub license_bits: u64,
    pub memory_amount: String,
    pub plan: String,
    pub plan_ipv4_bytes: String,
    pub plan_ipv6_bytes: String,
    pub server_group: Option<String>,
    pub simple_backup: String,
    pub state: String,
    pub tags: Tags,
    pub title: String,
    pub uuid: String,
    pub zone: String,
}

/// A server with everything the provider knows of it.
#[derive(Debug, Default)]
pub struct ServerDetails {
    pub server: Server,
    pub boot_order: Option<String>,
    pub firewall: Option<String>,
    pub ip_addresses: Option<IPAddressWrapper>,
    pub networking: Option<CreateServerNetworking>,
    pub nic_model: Option<String>,
    pub password: Option<String>,
    pub storage_devices: Option<StorageDeviceListWrapper>,
    pub video_model: Option<String>,
    pub remote_access_enabled: bool,
    pub remote_access_password: String,
}

#[derive(Debug)]
pub struct StorageDeviceListWrapper {
    pub storage_device: Vec<ServerStorageDevice>,
}

impl Default for StorageDeviceListWrapper {
    fn default() -> (list: StorageDeviceListWrapper)
        ensures
            list.storage_device@.len() == 0,
    {
        StorageDeviceListWrapper { storage_device: Vec::new() }
    }
}

#[derive(Debug)]
pub struct IPAddress {
    pub access: String,
    pub family: String,
    pub address: String,
    pub ptr_record: String,
    pub server: String,
    pub floating: Option<bool>,
    pub mac: Option<String>,
    pub network: Option<String>,
}

#[derive(Debug)]
pub struct ServerStorageDevice {
    pub address: String,
    pub part_of_plan: String,
    pub labels: Vec<Label>,
    pub storage: String,
    pub storage_size: i32,
    pub storage_encrypted: String,
    pub storage_tier: String,
    pub storage_title: String,
    pub storage_type: Option<String>,
    pub boot_disk: String,
}

#[derive(Debug)]
pub struct NetworkInterface {
    pub index: Option<i32>,
    pub ip_addresses: Option<Vec<IPAddress>>,
    pub interface_type: Option<String>,
    pub network: Option<String>,
    pub mac: Option<String>,
    pub source_ip_filtering: Option<bool>,
    pub bootable: Option<bool>,
}

#[derive(Debug)]
pub struct ServerNetworking {
    pub interfaces: Vec<NetworkInterface>,
}

/// What a create call says of the server to be made.
#[derive(Debug)]
pub struct ServerRequest {
    pub avoid_host: Option<i32>,
    pub host: Option<i32>,
    pub boot_order: Option<String>,
    pub core_number: Option<i32>,
    pub firewall: Option<String>,
    pub hostname: String,
    pub labels: Option<Vec<Label>>,
    pub login_user: LoginUser,
    pub memory_amount: Option<i32>,
    pub metadata: Option<String>,
    pub nic_model: Option<String>,
    pub networking: Option<CreateServerNetworking>,
    pub password_delivery: Option<String>,
    pub plan: Option<String>,
    pub server_group: Option<String>,
    pub simple_backup: Option<String>,
    pub storage_devices: StorageDeviceWrapper,
    pub timezone: Option<String>,
    pub title: String,
    pub user_data: Option<String>,
    pub video_model: Option<String>,
    pub remote_access_enabled: Option<bool>,
    pub remote_access_type: Option<String>,
    pub remote_access_password: Option<String>,
    pub zone: String,
}

impl ServerRequest {
    /// A request in which nothing has been chosen yet: texts empty, options
    /// unset, no storage, and the default login user.
    pub open spec fn is_blank(&self) -> bool {
        &&& self.avoid_host is None
        &&& self.host is None
        &&& self.boot_order is None
        &&& self.core_number is None
        &&& self.firewall is None
        &&& self.hostname@.len() == 0
        &&& self.labels is None
        &&& self.login_user.is_default()
        &&& self.memory_amount is None
        &&& self.metadata is None
        &&& self.nic_model is None
        &&& self.networking is None
        &&& self.password_delivery is None
        &&& self.plan is None
        &&& self.server_group is None
        &&& self.simple_backup is None
        &&& self.storage_devices.storage_device@.len() == 0
        &&& self.timezone is None
        &&& self.title@.len() == 0
        &&& self.user_data is None
        &&& self.video_model is None
        &&& self.remote_access_enabled is None
        &&& self.remote_access_type is None
        &&& self.remote_access_password is None
        &&& self.zone@.len() == 0
    }
}

impl Default for ServerRequest {
    fn default() -> (request: ServerRequest)
        ensures
            request.is_blank(),
    {
        ServerRequest {
            avoid_host: None,
            host: None,
            boot_order: None,
            core_number: None,
            firewall: None,
            hostname: String::new(),
            labels: None,
            login_user: LoginUser::default(),
            memory_amount: None,
            metadata: None,
            nic_model: None,
            networking: None,
            password_delivery: None,
            plan: None,
            server_group: None,
            simple_backup: None,
            storage_devices: StorageDeviceWrapper::default(),
            timezone: None,
            title: String::new(),
            user_data: None,
            video_model: None,
            remote_access_enabled: None,
            remote_access_type: None,
            remote_access_password: None,
            zone: String::new(),
        }
    }
}

/// Envelope of a create call.
#[derive(Debug)]
pub struct CreateServerRequest {
    pub server: ServerRequest,
}

impl Default for CreateServerRequest {
    fn default() -> (request: CreateServerRequest)
        ensures
            request.server.is_blank(),
    {
        CreateServerRequest { server: ServerRequest::default() }
    }
}

/// The networking a request gets when it names none: one public interface
/// with index 1 and one IPv4 address chosen by the provider.
pub open spec fn is_default_networking(networking: CreateServerNetworking) -> bool {
    &&& networking.interfaces.interface@.len() == 1
    &&& networking.interfaces.interface@[0].interface_type@ == "public"@
    &&& networking.interfaces.interface@[0].index == Some(1i32)
    &&& networking.interfaces.interface@[0].network is None
    &&& networking.interfaces.interface@[0].source_ip_filtering is None
    &&& networking.interfaces.interface@[0].bootable is None
    &&& networking.interfaces.interface@[0].ip_addresses.ip_address@.len() == 1
    &&& networking.interfaces.interface@[0].ip_addresses.ip_address@[0].address is None
    &&& networking.interfaces.interface@[0].ip_addresses.ip_address@[0].family matches Some(family)
        && family@ == "IPv4"@
}

impl CreateServerRequest {
    /// A request in which nothing has been chosen yet.
    pub fn new() -> (req: CreateServerRequest)
        ensures
            req.server.is_blank(),
    {
        CreateServerRequest { server: ServerRequest::default() }
    }

    /// Places the server in `zone`.
    pub fn with_zone(self, zone: &str) -> (req: CreateServerRequest)
        ensures
            req.server.zone@ == zone@,
            req.server == (ServerRequest { zone: req.server.zone, ..self.server }),
    {
        let mut req = self;
        req.server.zone = String::from_str(zone);
        req
    }

    /// Names the host.
    pub fn with_hostname(self, hostname: &str) -> (req: CreateServerRequest)
        ensures
            req.server.hostname@ == hostname@,
            req.server == (ServerRequest { hostname: req.server.hostname, ..self.server }),
    {
        let mut req = self;
        req.server.hostname = String::from_str(hostname);
        req
    }

    /// Gives the server its title.
    pub fn with_title(self, title: &str) -> (req: CreateServerRequest)
        ensures
            req.server.title@ == title@,
            req.server == (ServerRequest { title: req.server.title, ..self.server }),
    {
        let mut req = self;
        req.server.title = String::from_str(title);
        req
    }

    /// Chooses a plan.
    pub fn with_plan(self, plan: &str) -> (req: CreateServerRequest)
        ensures
            req.server.plan matches Some(text) && text@ == plan@,
            req.server == (ServerRequest { plan: req.server.plan, ..self.server }),
    {
        let mut req = self;
        req.server.plan = Some(String::from_str(plan));
        req
    }

    /// Chooses the number of cores.
    pub fn with_core_number(self, core_number: i32) -> (req: CreateServerRequest)
        ensures
            req.server == (ServerRequest { core_number: Some(core_number), ..self.server }),
    {
        let mut req = self;
        req.server.core_number = Some(core_number);
        req
    }

    /// Chooses the amount of memory, in megabytes.
    pub fn with_memory_amount(self, memory_amount: i32) -> (req: CreateServerRequest)
        ensures
            req.server == (ServerRequest { memory_amount: Some(memory_amount), ..self.server }),
    {
        let mut req = self;
        req.server.memory_amount = Some(memory_amount);
        req
    }

    /// Adds a storage device behind those already there.
    pub fn with_storage_device(self, device: CreateServerStorageDevice) -> (req: CreateServerRequest)
        ensures
            req.server.storage_devices.storage_device@
                == self.server.storage_devices.storage_device@.push(device),
            req.server == (ServerRequest { storage_devices: req.server.storage_devices, ..self.server }),
    {
        let mut req = self;
        req.server.storage_devices.storage_device.push(device);
        req
    }

    /// Chooses the networking.
    pub fn with_networking(self, networking: CreateServerNetworking) -> (req: CreateServerRequest)
        ensures
            req.server == (ServerRequest { networking: Some(networking), ..self.server }),
    {
        let mut req = self;
        req.server.networking = Some(networking);
        req
    }

    /// Chooses the login user.
    pub fn with_login_user(self, login_user: LoginUser) -> (req: CreateServerRequest)
        ensures
            req.server == (ServerRequest { login_user, ..self.server }),
    {
        let mut req = self;
        req.server.login_user = login_user;
        req
    }

    /// Hands user data to the first boot.
    pub fn with_user_data(self, user_data: String) -> (req: CreateServerRequest)
        ensures
            req.server == (ServerRequest { user_data: Some(user_data), ..self.server }),
    {
        let mut req = self;
        req.server.user_data = Some(user_data);
        req
    }

    /// Keeps the server off a host.
    pub fn with_avoid_host(self, avoid_host: i32) -> (req: CreateServerRequest)
        ensures
            req.server == (ServerRequest { avoid_host: Some(avoid_host), ..self.server }),
    {
        let mut req = self;
        req.server.avoid_host = Some(avoid_host);
        req
    }

    /// Pins the server to a host.
    pub fn with_host(self, host: i32) -> (req: CreateServerRequest)
        ensures
            req.server == (ServerRequest { host: Some(host), ..self.server }),
    {
        let mut req = self;
        req.server.host = Some(host);
        req
    }

    /// Chooses the boot order.
    pub fn with_boot_order(self, boot_order: String) -> (req: CreateServerRequest)
        ensures
            req.server == (ServerRequest { boot_order: Some(boot_order), ..self.server }),
    {
        let mut req = self;
        req.server.boot_order = Some(boot_order);
        req
    }

    /// Switches the firewall.
    pub fn with_firewall(self, firewall: String) -> (req: CreateServerRequest)
        ensures
            req.server == (ServerRequest { firewall: Some(firewall), ..self.server }),
    {
        let mut req = self;
        req.server.firewall = Some(firewall);
        req
    }

    /// Attaches labels.
    pub fn with_labels(self, labels: Vec<Label>) -> (req: CreateServerRequest)
        ensures
            req.server == (ServerRequest { labels: Some(labels), ..self.server }),
    {
        let mut req = self;
        req.server.labels = Some(labels);
        req
    }

    /// Switches the metadata service.
    pub fn with_metadata(self, metadata: &str) -> (req: CreateServerRequest)
        ensures
            req.server.metadata matches Some(text) && text@ == metadata@,
            req.server == (ServerRequest { metadata: req.server.metadata, ..self.server }),
    {
        let mut req = self;
        req.server.metadata = Some(String::from_str(metadata));
        req
    }

    /// Chooses the network card model.
    pub fn with_nic_model(self, nic_model: String) -> (req: CreateServerRequest)
        ensures
            req.server == (ServerRequest { nic_model: Some(nic_model), ..self.server }),
    {
        let mut req = self;
        req.server.nic_model = Some(nic_model);
        req
    }

    /// Chooses how the password is delivered.
    pub fn with_password_delivery(self, password_delivery: String) -> (req: CreateServerRequest)
        ensures
            req.server == (ServerRequest { password_delivery: Some(password_delivery), ..self.server }),
    {
        let mut req = self;
        req.server.password_delivery = Some(password_delivery);
        req
    }

    /// Puts the server into a group.
    pub fn with_server_group(self, server_group: String) -> (req: CreateServerRequest)
        ensures
            req.server == (ServerRequest { server_group: Some(server_group), ..self.server }),
    {
        let mut req = self;
        req.server.server_group = Some(server_group);
        req
    }

    /// Chooses the backup rule.
    pub fn with_simple_backup(self, simple_backup: String) -> (req: CreateServerRequest)
        ensures
            req.server == (ServerRequest { simple_backup: Some(simple_backup), ..self.server }),
    {
        let mut req = self;
        req.server.simple_backup = Some(simple_backup);
        req
    }

    /// Chooses the time zone.
    pub fn with_timezone(self, timezone: String) -> (req: CreateServerRequest)
        ensures
            req.server == (ServerRequest { timezone: Some(timezone), ..self.server }),
    {
        let mut req = self;
        req.server.timezone = Some(timezone);
        req
    }

    /// Chooses the video model.
    pub fn with_video_model(self, video_model: String) -> (req: CreateServerRequest)
        ensures
            req.server == (ServerRequest { video_model: Some(video_model), ..self.server }),
    {
        let mut req = self;
        req.server.video_model = Some(video_model);
        req
    }

    /// Sets the three remote access fields at once; an absent type or
    /// password clears what was there.
    pub fn with_remote_access(
        self,
        enabled: bool,
        access_type: Option<String>,
        password: Option<String>,
    ) -> (req: CreateServerRequest)
        ensures
            req.server == (ServerRequest {
                remote_access_enabled: Some(enabled),
                remote_access_type: access_type,
                remote_access_password: password,
                ..self.server
            }),
    {
        let mut req = self;
        req.server.remote_access_enabled = Some(enabled);
        req.server.remote_access_type = access_type;
        req.server.remote_access_password = password;
        req
    }

    /// Finishes the request: one that names no networking gets the default
    /// one, and nothing else changes.
    pub fn build(self) -> (req: CreateServerRequest)
        ensures
            self.server.networking is Some ==> req == self,
            self.server.networking is None ==> (req.server.networking matches Some(networking)
                && is_default_networking(networking)),
            req.server == (ServerRequest { networking: req.server.networking, ..self.server }),
    {
        let mut req = self;
        if req.server.networking.is_none() {
            req.server.networking = Some(
                CreateServerNetworking::new().with_interface(
                    CreateServerInterface::new("public").with_ip_address("IPv4", None).with_index(1),
                ),
            );
        }
        req
    }
}

/// One storage device of a create call.
#[derive(Debug)]
pub struct CreateServerStorageDevice {
    pub action: String,
    pub address: Option<String>,
    pub encrypted: Option<bool>,
    pub storage: String,
    pub title: Option<String>,
    /// Size in gigabytes.
    pub size: Option<i32>,
    pub tier: Option<String>,
    pub storage_type: Option<String>,
}

impl Default for CreateServerStorageDevice {
    fn default() -> (device: CreateServerStorageDevice)
        ensures
            device.action@.len() == 0,
            device.storage@.len() == 0,
            device.address is None,
            device.encrypted is None,
            device.title is None,
            device.size is None,
            device.tier is None,
            device.storage_type is None,
    {
        CreateServerStorageDevice {
            action: String::new(),
            address: None,
            encrypted: None,
            storage: String::new(),
            title: None,
            size: None,
            tier: None,
            storage_type: None,
        }
    }
}

impl CreateServerStorageDevice {
    /// A device for `action` on `storage`, with every option unset.
    pub fn new(action: &str, storage: &str) -> (device: CreateServerStorageDevice)
        ensures
            device.action@ == action@,
            device.storage@ == storage@,
            device.address is None,
            device.encrypted is None,
            device.title is None,
            device.size is None,
            device.tier is None,
            device.storage_type is None,
    {
        CreateServerStorageDevice {
            action: String::from_str(action),
            address: None,
            encrypted: None,
            storage: String::from_str(storage),
            title: None,
            size: None,
            tier: None,
            storage_type: None,
        }
    }

    /// The system disk: a clone of the template, titled as such.
    pub fn from_template(template_uuid: &str) -> (device: CreateServerStorageDevice)
        ensures
            device.action@ == CREATE_SERVER_STORAGE_DEVICE_ACTION_CLONE@,
            device.storage@ == template_uuid@,
            device.title matches Some(title) && title@ == SYSTEM_DISK_TITLE@,
            device.address is None,
            device.encrypted is None,
            device.size is None,
            device.tier is None,
            device.storage_type is None,
    {
        CreateServerStorageDevice::new(
            CREATE_SERVER_STORAGE_DEVICE_ACTION_CLONE,
            template_uuid,
        ).with_title(SYSTEM_DISK_TITLE)
    }

    /// Chooses the size, in gigabytes.
    pub fn with_size(self, size: i32) -> (req: CreateServerStorageDevice)
        ensures
            req == (CreateServerStorageDevice { size: Some(size), ..self }),
    {
        let mut req = self;
        req.size = Some(size);
        req
    }

    /// Chooses the storage tier.
    pub fn with_tier(self, tier: &str) -> (req: CreateServerStorageDevice)
        ensures
            req.tier matches Some(text) && text@ == tier@,
            req == (CreateServerStorageDevice { tier: req.tier, ..self }),
    {
        let mut req = self;
        req.tier = Some(String::from_str(tier));
        req
    }

    /// Gives the device its title.
    pub fn with_title(self, title: &str) -> (req: CreateServerStorageDevice)
        ensures
            req.title matches Some(text) && text@ == title@,
            req == (CreateServerStorageDevice { title: req.title, ..self }),
    {
        let mut req = self;
        req.title = Some(String::from_str(title));
        req
    }

    /// Chooses whether the device is encrypted.
    pub fn with_encrypted(self, encrypted: bool) -> (req: CreateServerStorageDevice)
        ensures
            req == (CreateServerStorageDevice { encrypted: Some(encrypted), ..self }),
    {
        let mut req = self;
        req.encrypted = Some(encrypted);
        req
    }

    /// Chooses the bus address.
    pub fn with_address(self, address: &str) -> (req: CreateServerStorageDevice)
        ensures
            req.address matches Some(text) && text@ == address@,
            req == (CreateServerStorageDevice { address: req.address, ..self }),
    {
        let mut req = self;
        req.address = Some(String::from_str(address));
        req
    }
}

/// The interfaces of a server.
#[derive(Debug)]
pub struct CreateServerNetworking {
    pub interfaces: InterfaceWrapper,
}

#[derive(Debug, Default)]
pub struct InterfaceWrapper {
    pub interface: Vec<CreateServerInterface>,
}

/// One network interface of a create call.
#[derive(Debug)]
pub struct CreateServerInterface {
    pub ip_addresses: IPAddressWrapper,
    pub interface_type: String,
    pub network: Option<String>,
    pub source_ip_filtering: Option<String>,
    pub bootable: Option<String>,
    pub index: Option<i32>,
}

#[derive(Debug)]
pub struct CreateServerIPAddress {
    pub family: Option<String>,
    pub address: Option<String>,
}

#[derive(Debug, Default)]
pub struct IPAddressWrapper {
    pub ip_address: Vec<CreateServerIPAddress>,
}

/// The user that is set up on a new server.
#[derive(Debug)]
pub struct LoginUser {
    pub username: String,
    pub ssh_keys: Option<SSHKey>,
    pub create_password: Option<String>,
}

#[derive(Debug)]
pub struct SSHKey {
    pub ssh_key: Vec<String>,
}

impl LoginUser {
    /// The keys of the user, none where the field is unset.
    pub open spec fn keys(&self) -> Seq<String> {
        match self.ssh_keys {
            Some(keys) => keys.ssh_key@,
            None => Seq::empty(),
        }
    }

    /// The user a request has when none is chosen: `root`, without keys, with
    /// a password to be created.
    pub open spec fn is_default(&self) -> bool {
        &&& self.username@ == "root"@
        &&& self.ssh_keys is None
        &&& self.create_password matches Some(word) && word@ == "yes"@
    }

    /// The user `username`, without keys, with a password to be created.
    pub fn new(username: &str) -> (user: LoginUser)
        ensures
            user.username@ == username@,
            user.ssh_keys is None,
            user.create_password matches Some(word) && word@ == "yes"@,
    {
        LoginUser {
            username: String::from_str(username),
            ssh_keys: None,
            create_password: Some(String::from_str("yes")),
        }
    }

    /// Adds one key behind those already there.
    pub fn with_ssh_key(self, key: &str) -> (user: LoginUser)
        ensures
            user.ssh_keys is Some,
            user.keys().len() == self.keys().len() + 1,
            user.keys().drop_last() == self.keys(),
            user.keys().last()@ == key@,
            user.username == self.username,
            user.create_password == self.create_password,
    {
        let mut keys: Vec<String> = Vec::new();
        keys.push(String::from_str(key));
        let user = self.with_ssh_keys(keys);
        assert(user.keys().drop_last() =~= self.keys());
        user
    }

    /// Adds keys behind those already there.
    pub fn with_ssh_keys(self, keys: Vec<String>) -> (user: LoginUser)
        ensures
            user.ssh_keys is Some,
            user.keys() == self.keys() + keys@,
            user.username == self.username,
            user.create_password == self.create_password,
    {
        let LoginUser { username, ssh_keys, create_password } = self;
        let mut added = keys;
        let merged = match ssh_keys {
            Some(present) => {
                let mut list = present.ssh_key;
                list.append(&mut added);
                list
            },
            None => {
                assert(Seq::<String>::empty() + added@ =~= added@);
                added
            },
        };
        LoginUser { username, ssh_keys: Some(SSHKey { ssh_key: merged }), create_password }
    }

    /// Chooses whether a password is created.
    pub fn with_create_password(self, create: bool) -> (user: LoginUser)
        ensures
            user.create_password matches Some(word) && word@ == yes_no_text(create),
            user == (LoginUser { create_password: user.create_password, ..self }),
    {
        let mut user = self;
        user.create_password = Some(String::from_str(yes_no(create)));
        user
    }
}

impl Default for LoginUser {
    fn default() -> (user: LoginUser)
        ensures
            user.is_default(),
    {
        LoginUser {
            username: String::from_str("root"),
            ssh_keys: None,
            create_password: Some(String::from_str("yes")),
        }
    }
}

#[derive(Debug)]
pub struct StartServerRequest {
    pub host: Option<i32>,
    pub avoid_host: Option<i32>,
}

#[derive(Debug)]
pub struct StartServerResponse {
    pub server: ServerDetails,
}

#[derive(Debug)]
pub struct StopServerRequest {
    pub stop_type: Option<String>,
    pub timeout: Option<i64>,
}

#[derive(Debug)]
pub struct StopServerResponse {
    pub server: ServerDetails,
}

#[derive(Debug)]
pub struct RestartServerRequest {
    pub stop_type: Option<String>,
    pub timeout: Option<i64>,
    pub timeout_action: Option<String>,
    pub host: Option<i32>,
}

#[derive(Debug)]
pub struct RestartServerResponse {
    pub server: ServerDetails,
}

#[derive(Debug)]
pub struct ModifyServerRequest {
    pub boot_order: Option<String>,
    pub core_number: Option<i32>,
    pub memory_amount: Option<i32>,
    pub title: Option<String>,
    pub zone: Option<String>,
}

#[derive(Debug)]
pub struct ModifyServerResponse {
    pub server: ServerDetails,
}

#[derive(Debug)]
pub struct StorageDeviceWrapper {
    pub storage_device: Vec<CreateServerStorageDevice>,
}

impl Default for StorageDeviceWrapper {
    fn default() -> (list: StorageDeviceWrapper)
        ensures
            list.storage_device@.len() == 0,
    {
        StorageDeviceWrapper { storage_device: Vec::new() }
    }
}

impl CreateServerNetworking {
    /// Networking without interfaces.
    pub fn new() -> (networking: CreateServerNetworking)
        ensures
            networking.interfaces.interface@.len() == 0,
    {
        CreateServerNetworking { interfaces: InterfaceWrapper { interface: Vec::new() } }
    }

    /// Adds an interface behind those already there.
    pub fn with_interface(self, interface: CreateServerInterface) -> (networking:
        CreateServerNetworking)
        ensures
            networking.interfaces.interface@ == self.interfaces.interface@.push(interface),
    {
        let mut networking = self;
        networking.interfaces.interface.push(interface);
        networking
    }
}

impl CreateServerInterface {
    /// An interface of the given type, without addresses, every option unset.
    pub fn new(interface_type: &str) -> (interface: CreateServerInterface)
        ensures
            interface.interface_type@ == interface_type@,
            interface.ip_addresses.ip_address@.len() == 0,
            interface.network is None,
            interface.source_ip_filtering is None,
            interface.bootable is None,
            interface.index is None,
    {
        CreateServerInterface {
            ip_addresses: IPAddressWrapper { ip_address: Vec::new() },
            interface_type: String::from_str(interface_type),
            network: None,
            source_ip_filtering: None,
            bootable: None,
            index: None,
        }
    }

    /// Adds an address of `family` behind those already there; without
    /// `address` the provider picks one.
    pub fn with_ip_address(self, family: &str, address: Option<String>) -> (interface:
        CreateServerInterface)
        ensures
            interface.ip_addresses.ip_address@.len() == self.ip_addresses.ip_address@.len() + 1,
            interface.ip_addresses.ip_address@.drop_last() == self.ip_addresses.ip_address@,
            interface.ip_addresses.ip_address@.last().address == address,
            interface.ip_addresses.ip_address@.last().family matches Some(text) && text@
                == family@,
            interface == (CreateServerInterface {
                ip_addresses: interface.ip_addresses,
                ..self
            }),
    {
        let mut interface = self;
        interface.ip_addresses.ip_address.push(
            CreateServerIPAddress { family: Some(String::from_str(family)), address },
        );
        assert(interface.ip_addresses.ip_address@.drop_last() =~= self.ip_addresses.ip_address@);
        interface
    }

    /// Switches source address filtering.
    pub fn with_source_ip_filtering(self, enabled: bool) -> (interface: CreateServerInterface)
        ensures
            interface.source_ip_filtering matches Some(word) && word@ == yes_no_text(enabled),
            interface == (CreateServerInterface { source_ip_filtering: interface.source_ip_filtering, ..self }),
    {
        let mut interface = self;
        interface.source_ip_filtering = Some(String::from_str(yes_no(enabled)));
        interface
    }

    /// Chooses whether the server may boot from the interface.
    pub fn with_bootable(self, bootable: bool) -> (interface: CreateServerInterface)
        ensures
            interface.bootable matches Some(word) && word@ == yes_no_text(bootable),
            interface == (CreateServerInterface { bootable: interface.bootable, ..self }),
    {
        let mut interface = self;
        interface.bootable = Some(String::from_str(yes_no(bootable)));
        interface
    }

    /// Chooses the position of the interface.
    pub fn with_index(self, index: i32) -> (interface: CreateServerInterface)
        ensures
            interface == (CreateServerInterface { index: Some(index), ..self }),
    {
        let mut interface = self;
        interface.index = Some(index);
        interface
    }
}

} // verus!
