[package]
name = "openharmony_ability"
version = "0.1.0"
edition = "2021"
publish = false

[dependencies]
http = "=1.5.0"
napi-ohos = { version = "=1.2.0", features = ["napi8"] }
napi-derive-ohos = "=1.2.0"
ohos-arkui-binding = "=0.4.2"
ohos-display-binding = "=0.1.4"
ohos-display-soloist-binding = "=0.3.1"
ohos-hilog-binding = "=0.2.4"
ohos-ime-binding = "=0.3.1"
ohos-web-binding = "=0.3.0"
ohos-xcomponent-binding = "=0.5.2"
darling = "=0.24.1"
proc-macro2 = "=1.0.107"
quote = "=1.0.47"
syn = { version = "=2.0.119", features = ["full"] }
