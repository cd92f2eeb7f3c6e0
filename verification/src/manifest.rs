//! The classpath manifest: the static, platform-selected ordered list of
//! relative library paths shipped with the launcher. Only the Windows x86-64
//! target ships a manifest; every other platform's list is empty.
use vstd::prelude::*;

use crate::platform::Platform;

verus! {

/// The relative library paths of the platform's classpath manifest, in the
/// order they appear on the classpath.
pub open spec fn manifest_spec(p: Platform) -> Seq<Seq<char>> {
    match p {
        Platform::WindowsX64 => seq![
            "net/fabricmc/tiny-mappings-parser/0.3.0+build.17/tiny-mappings-parser-0.3.0+build.17.jar"@,
            "net/fabricmc/sponge-mixin/0.12.4+mixin.0.8.5/sponge-mixin-0.12.4+mixin.0.8.5.jar"@,
            "net/fabricmc/tiny-remapper/0.8.2/tiny-remapper-0.8.2.jar"@,
            "net/fabricmc/access-widener/2.1.0/access-widener-2.1.0.jar"@,
            "org/ow2/asm/asm/9.4/asm-9.4.jar"@,
            "org/ow2/asm/asm-analysis/9.4/asm-analysis-9.4.jar"@,
            "org/ow2/asm/asm-commons/9.4/asm-commons-9.4.jar"@,
            "org/ow2/asm/asm-tree/9.4/asm-tree-9.4.jar"@,
            "org/ow2/asm/asm-util/9.4/asm-util-9.4.jar"@,
            "net/fabricmc/intermediary/1.19.4/intermediary-1.19.4.jar"@,
            "net/fabricmc/fabric-loader/0.14.19/fabric-loader-0.14.19.jar"@,
            "com/github/oshi/oshi-core/6.2.2/oshi-core-6.2.2.jar"@,
            "com/google/code/gson/gson/2.10/gson-2.10.jar"@,
            "com/google/guava/failureaccess/1.0.1/failureaccess-1.0.1.jar"@,
            "com/google/guava/guava/31.1-jre/guava-31.1-jre.jar"@,
            "com/ibm/icu/icu4j/71.1/icu4j-71.1.jar"@,
            "com/mojang/authlib/3.18.38/authlib-3.18.38.jar"@,
            "com/mojang/blocklist/1.0.10/blocklist-1.0.10.jar"@,
            "com/mojang/brigadier/1.0.18/brigadier-1.0.18.jar"@,
            "com/mojang/datafixerupper/6.0.6/datafixerupper-6.0.6.jar"@,
            "com/mojang/logging/1.1.1/logging-1.1.1.jar"@,
            "com/mojang/patchy/2.2.10/patchy-2.2.10.jar"@,
            "com/mojang/text2speech/1.16.7/text2speech-1.16.7.jar"@,
            "commons-codec/commons-codec/1.15/commons-codec-1.15.jar"@,
            "commons-io/commons-io/2.11.0/commons-io-2.11.0.jar"@,
            "commons-logging/commons-logging/1.2/commons-logging-1.2.jar"@,
            "io/netty/netty-buffer/4.1.82.Final/netty-buffer-4.1.82.Final.jar"@,
            "io/netty/netty-codec/4.1.82.Final/netty-codec-4.1.82.Final.jar"@,
            "io/netty/netty-common/4.1.82.Final/netty-common-4.1.82.Final.jar"@,
            "io/netty/netty-handler/4.1.82.Final/netty-handler-4.1.82.Final.jar"@,
            "io/netty/netty-resolver/4.1.82.Final/netty-resolver-4.1.82.Final.jar"@,
            "io/netty/netty-transport-classes-epoll/4.1.82.Final/netty-transport-classes-epoll-4.1.82.Final.jar"@,
            "io/netty/netty-transport-native-unix-common/4.1.82.Final/netty-transport-native-unix-common-4.1.82.Final.jar"@,
            "io/netty/netty-transport/4.1.82.Final/netty-transport-4.1.82.Final.jar"@,
            "it/unimi/dsi/fastutil/8.5.9/fastutil-8.5.9.jar"@,
            "net/java/dev/jna/jna-platform/5.12.1/jna-platform-5.12.1.jar"@,
            "net/java/dev/jna/jna/5.12.1/jna-5.12.1.jar"@,
            "net/sf/jopt-simple/jopt-simple/5.0.4/jopt-simple-5.0.4.jar"@,
            "org/apache/commons/commons-compress/1.21/commons-compress-1.21.jar"@,
            "org/apache/commons/commons-lang3/3.12.0/commons-lang3-3.12.0.jar"@,
            "org/apache/httpcomponents/httpclient/4.5.13/httpclient-4.5.13.jar"@,
            "org/apache/httpcomponents/httpcore/4.4.15/httpcore-4.4.15.jar"@,
            "org/apache/logging/log4j/log4j-api/2.19.0/log4j-api-2.19.0.jar"@,
            "org/apache/logging/log4j/log4j-core/2.19.0/log4j-core-2.19.0.jar"@,
            "org/apache/logging/log4j/log4j-slf4j2-impl/2.19.0/log4j-slf4j2-impl-2.19.0.jar"@,
            "org/joml/joml/1.10.5/joml-1.10.5.jar"@,
            "org/lwjgl/lwjgl-glfw/3.3.1/lwjgl-glfw-3.3.1.jar"@,
            "org/lwjgl/lwjgl-glfw/3.3.1/lwjgl-glfw-3.3.1-natives-windows.jar"@,
            "org/lwjgl/lwjgl-glfw/3.3.1/lwjgl-glfw-3.3.1-natives-windows-arm64.jar"@,
            "org/lwjgl/lwjgl-glfw/3.3.1/lwjgl-glfw-3.3.1-natives-windows-x86.jar"@,
            "org/lwjgl/lwjgl-jemalloc/3.3.1/lwjgl-jemalloc-3.3.1.jar"@,
            "org/lwjgl/lwjgl-jemalloc/3.3.1/lwjgl-jemalloc-3.3.1-natives-windows.jar"@,
            "org/lwjgl/lwjgl-jemalloc/3.3.1/lwjgl-jemalloc-3.3.1-natives-windows-arm64.jar"@,
            "org/lwjgl/lwjgl-jemalloc/3.3.1/lwjgl-jemalloc-3.3.1-natives-windows-x86.jar"@,
            "org/lwjgl/lwjgl-openal/3.3.1/lwjgl-openal-3.3.1.jar"@,
            "org/lwjgl/lwjgl-openal/3.3.1/lwjgl-openal-3.3.1-natives-windows.jar"@,
            "org/lwjgl/lwjgl-openal/3.3.1/lwjgl-openal-3.3.1-natives-windows-arm64.jar"@,
            "org/lwjgl/lwjgl-openal/3.3.1/lwjgl-openal-3.3.1-natives-windows-x86.jar"@,
            "org/lwjgl/lwjgl-opengl/3.3.1/lwjgl-opengl-3.3.1.jar"@,
            "org/lwjgl/lwjgl-opengl/3.3.1/lwjgl-opengl-3.3.1-natives-windows.jar"@,
            "org/lwjgl/lwjgl-opengl/3.3.1/lwjgl-opengl-3.3.1-natives-windows-arm64.jar"@,
            "org/lwjgl/lwjgl-opengl/3.3.1/lwjgl-opengl-3.3.1-natives-windows-x86.jar"@,
            "org/lwjgl/lwjgl-stb/3.3.1/lwjgl-stb-3.3.1.jar"@,
            "org/lwjgl/lwjgl-stb/3.3.1/lwjgl-stb-3.3.1-natives-windows.jar"@,
            "org/lwjgl/lwjgl-stb/3.3.1/lwjgl-stb-3.3.1-natives-windows-arm64.jar"@,
            "org/lwjgl/lwjgl-stb/3.3.1/lwjgl-stb-3.3.1-natives-windows-x86.jar"@,
            "org/lwjgl/lwjgl-tinyfd/3.3.1/lwjgl-tinyfd-3.3.1.jar"@,
            "org/lwjgl/lwjgl-tinyfd/3.3.1/lwjgl-tinyfd-3.3.1-natives-windows.jar"@,
            "org/lwjgl/lwjgl-tinyfd/3.3.1/lwjgl-tinyfd-3.3.1-natives-windows-arm64.jar"@,
            "org/lwjgl/lwjgl-tinyfd/3.3.1/lwjgl-tinyfd-3.3.1-natives-windows-x86.jar"@,
            "org/lwjgl/lwjgl/3.3.1/lwjgl-3.3.1.jar"@,
            "org/lwjgl/lwjgl/3.3.1/lwjgl-3.3.1-natives-windows.jar"@,
            "org/lwjgl/lwjgl/3.3.1/lwjgl-3.3.1-natives-windows-arm64.jar"@,
            "org/lwjgl/lwjgl/3.3.1/lwjgl-3.3.1-natives-windows-x86.jar"@,
            "org/slf4j/slf4j-api/2.0.1/slf4j-api-2.0.1.jar"@,
        ],
        Platform::Unix => Seq::empty(),
    }
}

/// The platform's classpath manifest as text entries.
pub fn manifest_entries(p: Platform) -> (r: Vec<&'static str>)
    ensures
        r.deep_view() == manifest_spec(p),
{
    let mut v: Vec<&'static str> = Vec::new();
    match p {
        Platform::WindowsX64 => {
            v.push("net/fabricmc/tiny-mappings-parser/0.3.0+build.17/tiny-mappings-parser-0.3.0+build.17.jar");
            v.push("net/fabricmc/sponge-mixin/0.12.4+mixin.0.8.5/sponge-mixin-0.12.4+mixin.0.8.5.jar");
            v.push("net/fabricmc/tiny-remapper/0.8.2/tiny-remapper-0.8.2.jar");
            v.push("net/fabricmc/access-widener/2.1.0/access-widener-2.1.0.jar");
            v.push("org/ow2/asm/asm/9.4/asm-9.4.jar");
            v.push("org/ow2/asm/asm-analysis/9.4/asm-analysis-9.4.jar");
            v.push("org/ow2/asm/asm-commons/9.4/asm-commons-9.4.jar");
            v.push("org/ow2/asm/asm-tree/9.4/asm-tree-9.4.jar");
            v.push("org/ow2/asm/asm-util/9.4/asm-util-9.4.jar");
            v.push("net/fabricmc/intermediary/1.19.4/intermediary-1.19.4.jar");
            v.push("net/fabricmc/fabric-loader/0.14.19/fabric-loader-0.14.19.jar");
            v.push("com/github/oshi/oshi-core/6.2.2/oshi-core-6.2.2.jar");
            v.push("com/google/code/gson/gson/2.10/gson-2.10.jar");
            v.push("com/google/guava/failureaccess/1.0.1/failureaccess-1.0.1.jar");
            v.push("com/google/guava/guava/31.1-jre/guava-31.1-jre.jar");
            v.push("com/ibm/icu/icu4j/71.1/icu4j-71.1.jar");
            v.push("com/mojang/authlib/3.18.38/authlib-3.18.38.jar");
            v.push("com/mojang/blocklist/1.0.10/blocklist-1.0.10.jar");
            v.push("com/mojang/brigadier/1.0.18/brigadier-1.0.18.jar");
            v.push("com/mojang/datafixerupper/6.0.6/datafixerupper-6.0.6.jar");
            v.push("com/mojang/logging/1.1.1/logging-1.1.1.jar");
            v.push("com/mojang/patchy/2.2.10/patchy-2.2.10.jar");
            v.push("com/mojang/text2speech/1.16.7/text2speech-1.16.7.jar");
            v.push("commons-codec/commons-codec/1.15/commons-codec-1.15.jar");
            v.push("commons-io/commons-io/2.11.0/commons-io-2.11.0.jar");
            v.push("commons-logging/commons-logging/1.2/commons-logging-1.2.jar");
            v.push("io/netty/netty-buffer/4.1.82.Final/netty-buffer-4.1.82.Final.jar");
            v.push("io/netty/netty-codec/4.1.82.Final/netty-codec-4.1.82.Final.jar");
            v.push("io/netty/netty-common/4.1.82.Final/netty-common-4.1.82.Final.jar");
            v.push("io/netty/netty-handler/4.1.82.Final/netty-handler-4.1.82.Final.jar");
            v.push("io/netty/netty-resolver/4.1.82.Final/netty-resolver-4.1.82.Final.jar");
            v.push("io/netty/netty-transport-classes-epoll/4.1.82.Final/netty-transport-classes-epoll-4.1.82.Final.jar");
            v.push("io/netty/netty-transport-native-unix-common/4.1.82.Final/netty-transport-native-unix-common-4.1.82.Final.jar");
            v.push("io/netty/netty-transport/4.1.82.Final/netty-transport-4.1.82.Final.jar");
            v.push("it/unimi/dsi/fastutil/8.5.9/fastutil-8.5.9.jar");
            v.push("net/java/dev/jna/jna-platform/5.12.1/jna-platform-5.12.1.jar");
            v.push("net/java/dev/jna/jna/5.12.1/jna-5.12.1.jar");
            v.push("net/sf/jopt-simple/jopt-simple/5.0.4/jopt-simple-5.0.4.jar");
            v.push("org/apache/commons/commons-compress/1.21/commons-compress-1.21.jar");
            v.push("org/apache/commons/commons-lang3/3.12.0/commons-lang3-3.12.0.jar");
            v.push("org/apache/httpcomponents/httpclient/4.5.13/httpclient-4.5.13.jar");
            v.push("org/apache/httpcomponents/httpcore/4.4.15/httpcore-4.4.15.jar");
            v.push("org/apache/logging/log4j/log4j-api/2.19.0/log4j-api-2.19.0.jar");
            v.push("org/apache/logging/log4j/log4j-core/2.19.0/log4j-core-2.19.0.jar");
            v.push("org/apache/logging/log4j/log4j-slf4j2-impl/2.19.0/log4j-slf4j2-impl-2.19.0.jar");
            v.push("org/joml/joml/1.10.5/joml-1.10.5.jar");
            v.push("org/lwjgl/lwjgl-glfw/3.3.1/lwjgl-glfw-3.3.1.jar");
            v.push("org/lwjgl/lwjgl-glfw/3.3.1/lwjgl-glfw-3.3.1-natives-windows.jar");
            v.push("org/lwjgl/lwjgl-glfw/3.3.1/lwjgl-glfw-3.3.1-natives-windows-arm64.jar");
            v.push("org/lwjgl/lwjgl-glfw/3.3.1/lwjgl-glfw-3.3.1-natives-windows-x86.jar");
            v.push("org/lwjgl/lwjgl-jemalloc/3.3.1/lwjgl-jemalloc-3.3.1.jar");
            v.push("org/lwjgl/lwjgl-jemalloc/3.3.1/lwjgl-jemalloc-3.3.1-natives-windows.jar");
            v.push("org/lwjgl/lwjgl-jemalloc/3.3.1/lwjgl-jemalloc-3.3.1-natives-windows-arm64.jar");
            v.push("org/lwjgl/lwjgl-jemalloc/3.3.1/lwjgl-jemalloc-3.3.1-natives-windows-x86.jar");
            v.push("org/lwjgl/lwjgl-openal/3.3.1/lwjgl-openal-3.3.1.jar");
            v.push("org/lwjgl/lwjgl-openal/3.3.1/lwjgl-openal-3.3.1-natives-windows.jar");
            v.push("org/lwjgl/lwjgl-openal/3.3.1/lwjgl-openal-3.3.1-natives-windows-arm64.jar");
            v.push("org/lwjgl/lwjgl-openal/3.3.1/lwjgl-openal-3.3.1-natives-windows-x86.jar");
            v.push("org/lwjgl/lwjgl-opengl/3.3.1/lwjgl-opengl-3.3.1.jar");
            v.push("org/lwjgl/lwjgl-opengl/3.3.1/lwjgl-opengl-3.3.1-natives-windows.jar");
            v.push("org/lwjgl/lwjgl-opengl/3.3.1/lwjgl-opengl-3.3.1-natives-windows-arm64.jar");
            v.push("org/lwjgl/lwjgl-opengl/3.3.1/lwjgl-opengl-3.3.1-natives-windows-x86.jar");
            v.push("org/lwjgl/lwjgl-stb/3.3.1/lwjgl-stb-3.3.1.jar");
            v.push("org/lwjgl/lwjgl-stb/3.3.1/lwjgl-stb-3.3.1-natives-windows.jar");
            v.push("org/lwjgl/lwjgl-stb/3.3.1/lwjgl-stb-3.3.1-natives-windows-arm64.jar");
            v.push("org/lwjgl/lwjgl-stb/3.3.1/lwjgl-stb-3.3.1-natives-windows-x86.jar");
            v.push("org/lwjgl/lwjgl-tinyfd/3.3.1/lwjgl-tinyfd-3.3.1.jar");
            v.push("org/lwjgl/lwjgl-tinyfd/3.3.1/lwjgl-tinyfd-3.3.1-natives-windows.jar");
            v.push("org/lwjgl/lwjgl-tinyfd/3.3.1/lwjgl-tinyfd-3.3.1-natives-windows-arm64.jar");
            v.push("org/lwjgl/lwjgl-tinyfd/3.3.1/lwjgl-tinyfd-3.3.1-natives-windows-x86.jar");
            v.push("org/lwjgl/lwjgl/3.3.1/lwjgl-3.3.1.jar");
            v.push("org/lwjgl/lwjgl/3.3.1/lwjgl-3.3.1-natives-windows.jar");
            v.push("org/lwjgl/lwjgl/3.3.1/lwjgl-3.3.1-natives-windows-arm64.jar");
            v.push("org/lwjgl/lwjgl/3.3.1/lwjgl-3.3.1-natives-windows-x86.jar");
            v.push("org/slf4j/slf4j-api/2.0.1/slf4j-api-2.0.1.jar");
        },
        Platform::Unix => {
        },
    }
    proof {
        assert(v.deep_view() =~= manifest_spec(p));
    }
    v
}

} // verus!
